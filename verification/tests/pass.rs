use ash::vk;
use mars::image::format::{B8G8R8A8Unorm, D32Sfloat, R8G8B8A8Unorm};
use mars::image::samples::{SampleCount1, SampleCount4};
use mars::image::usage::DynImageUsage;
use mars::math::{Scalar, Vec4};
use mars::pass::{
    check_render_pass, clear_attachments, color_attachment_transition,
    depth_attachment_transition, flatten_views, get_render_pass_desc, render_pass_desc,
    Attachments, ColorAttachment, ColorAttachmentType, ColorAttachments, ColorClearValue,
    ColorClearValues, DepthAttachment, DepthAttachmentType, DepthClearValue, InputAttachments,
    MultisampledColorAttachment, NoDepthAttachment, RenderPass, RenderPassPrototype,
};
use mars::raw::{
    Attachment, AttachmentRef, ClearAttachment, ClearColorValue, ClearDepthStencilValue,
    ClearValue, Extent2D, ImageLayoutTransition, SubpassColorAttachment,
};

struct Plain;

impl RenderPassPrototype for Plain {
    type SampleCount = SampleCount1;
    type InputAttachments = ();
    type ColorAttachments = (ColorAttachment<B8G8R8A8Unorm>,);
    type DepthAttachment = NoDepthAttachment;
}

struct Smooth;

impl RenderPassPrototype for Smooth {
    type SampleCount = SampleCount4;
    type InputAttachments = ();
    type ColorAttachments = (
        MultisampledColorAttachment<R8G8B8A8Unorm, SampleCount4>,
        MultisampledColorAttachment<B8G8R8A8Unorm, SampleCount4>,
    );
    type DepthAttachment = DepthAttachment<D32Sfloat, SampleCount4>;
}

struct Empty;

impl RenderPassPrototype for Empty {
    type SampleCount = SampleCount1;
    type InputAttachments = ();
    type ColorAttachments = ();
    type DepthAttachment = NoDepthAttachment;
}

fn extent() -> Extent2D {
    Extent2D { width: 800, height: 600 }
}

fn kept(format: i32, samples: u32, layout: i32) -> Attachment {
    Attachment {
        format,
        samples,
        load_op: vk::AttachmentLoadOp::LOAD.as_raw(),
        store_op: vk::AttachmentStoreOp::STORE.as_raw(),
        stencil_load_op: vk::AttachmentLoadOp::DONT_CARE.as_raw(),
        stencil_store_op: vk::AttachmentStoreOp::DONT_CARE.as_raw(),
        initial_layout: layout,
        final_layout: layout,
    }
}

fn numbered(n: i32) -> Attachment {
    kept(n, 1, 0)
}

fn color(bits: [u32; 4]) -> Vec4 {
    Vec4::new(
        Scalar::from_bits(bits[0]),
        Scalar::from_bits(bits[1]),
        Scalar::from_bits(bits[2]),
        Scalar::from_bits(bits[3]),
    )
}

#[test]
fn attachments_are_numbered_inputs_then_colours_then_depth() {
    let inputs = [numbered(10), numbered(11)];
    let colors = [
        (numbered(20), None),
        (numbered(21), Some(numbered(22))),
        (numbered(23), None),
    ];
    let (attachments, subpasses, dependencies) =
        render_pass_desc(&inputs, &colors, Some(numbered(30)));
    let formats: Vec<i32> = attachments.iter().map(|a| a.format).collect();
    assert_eq!(formats, vec![10, 11, 20, 21, 22, 23, 30]);
    assert!(dependencies.is_empty());
    assert_eq!(subpasses.len(), 1);
    let subpass = &subpasses[0];
    assert_eq!(
        subpass.input_attachments,
        vec![
            AttachmentRef { attachment: 0, layout: 5 },
            AttachmentRef { attachment: 1, layout: 5 },
        ]
    );
    assert_eq!(
        subpass.color_attachments,
        vec![
            SubpassColorAttachment {
                color: AttachmentRef { attachment: 2, layout: 2 },
                resolve: None,
            },
            SubpassColorAttachment {
                color: AttachmentRef { attachment: 3, layout: 2 },
                resolve: Some(AttachmentRef { attachment: 4, layout: 2 }),
            },
            SubpassColorAttachment {
                color: AttachmentRef { attachment: 5, layout: 2 },
                resolve: None,
            },
        ]
    );
    assert_eq!(
        subpass.depth_stencil_attachment,
        Some(AttachmentRef { attachment: 6, layout: 3 })
    );
}

#[test]
fn every_reference_points_at_its_attachment() {
    let inputs = [numbered(10)];
    let colors = [
        (numbered(20), Some(numbered(21))),
        (numbered(22), Some(numbered(23))),
        (numbered(24), None),
    ];
    let depth = Some(numbered(30));
    let (attachments, subpasses, _) = render_pass_desc(&inputs, &colors, depth);
    let subpass = &subpasses[0];
    for (i, used) in subpass.input_attachments.iter().enumerate() {
        assert_eq!(attachments[used.attachment as usize], inputs[i]);
    }
    for (k, used) in subpass.color_attachments.iter().enumerate() {
        assert_eq!(attachments[used.color.attachment as usize], colors[k].0);
        assert_eq!(
            used.resolve.map(|r| attachments[r.attachment as usize]),
            colors[k].1
        );
    }
    let used = subpass.depth_stencil_attachment.unwrap();
    assert_eq!(Some(attachments[used.attachment as usize]), depth);
}

#[test]
fn a_render_pass_without_attachments_has_an_empty_subpass() {
    let (attachments, subpasses, dependencies) = render_pass_desc(&[], &[], None);
    assert!(attachments.is_empty());
    assert!(dependencies.is_empty());
    assert_eq!(subpasses.len(), 1);
    assert!(subpasses[0].input_attachments.is_empty());
    assert!(subpasses[0].color_attachments.is_empty());
    assert_eq!(subpasses[0].depth_stencil_attachment, None);
}

#[test]
fn layouts_of_the_references_match_vulkan() {
    let (_, subpasses, _) =
        render_pass_desc(&[numbered(1)], &[(numbered(2), None)], Some(numbered(3)));
    let subpass = &subpasses[0];
    assert_eq!(
        subpass.input_attachments[0].layout,
        vk::ImageLayout::SHADER_READ_ONLY_OPTIMAL.as_raw()
    );
    assert_eq!(
        subpass.color_attachments[0].color.layout,
        vk::ImageLayout::COLOR_ATTACHMENT_OPTIMAL.as_raw()
    );
    assert_eq!(
        subpass.depth_stencil_attachment.unwrap().layout,
        vk::ImageLayout::DEPTH_STENCIL_ATTACHMENT_OPTIMAL.as_raw()
    );
}

#[test]
fn ordinary_render_passes_fit() {
    assert!(check_render_pass(&[], &[], &None));
    assert!(check_render_pass(
        &[numbered(1)],
        &[(numbered(2), Some(numbered(3)))],
        &Some(numbered(4))
    ));
}

#[test]
fn a_single_sampled_colour_attachment_has_no_resolve_target() {
    let desc = <ColorAttachment<B8G8R8A8Unorm> as ColorAttachmentType<SampleCount1>>::desc();
    let transfer_src = vk::ImageLayout::TRANSFER_SRC_OPTIMAL.as_raw();
    assert_eq!(desc, (kept(vk::Format::B8G8R8A8_UNORM.as_raw(), 1, transfer_src), None));
}

#[test]
fn a_multisampled_colour_attachment_resolves_into_one_sample() {
    let desc = <MultisampledColorAttachment<R8G8B8A8Unorm, SampleCount4> as ColorAttachmentType<
        SampleCount4,
    >>::desc();
    let transfer_src = vk::ImageLayout::TRANSFER_SRC_OPTIMAL.as_raw();
    let format = vk::Format::R8G8B8A8_UNORM.as_raw();
    assert_eq!(
        desc,
        (kept(format, 4, transfer_src), Some(kept(format, 1, transfer_src)))
    );
}

#[test]
fn a_depth_attachment_stays_in_the_depth_layout() {
    let desc = <DepthAttachment<D32Sfloat, SampleCount4> as DepthAttachmentType<SampleCount4>>::desc();
    assert_eq!(
        desc,
        Some(kept(
            vk::Format::D32_SFLOAT.as_raw(),
            4,
            vk::ImageLayout::DEPTH_STENCIL_ATTACHMENT_OPTIMAL.as_raw()
        ))
    );
    assert_eq!(<NoDepthAttachment as DepthAttachmentType<SampleCount1>>::desc(), None);
}

#[test]
fn the_typed_description_of_a_plain_pass() {
    let (attachments, subpasses, dependencies) = get_render_pass_desc::<Plain>();
    assert_eq!(attachments, vec![kept(44, 1, 6)]);
    assert!(dependencies.is_empty());
    assert_eq!(subpasses.len(), 1);
    assert!(subpasses[0].input_attachments.is_empty());
    assert_eq!(
        subpasses[0].color_attachments,
        vec![SubpassColorAttachment {
            color: AttachmentRef { attachment: 0, layout: 2 },
            resolve: None,
        }]
    );
    assert_eq!(subpasses[0].depth_stencil_attachment, None);
}

#[test]
fn the_typed_description_of_a_multisampled_pass_with_depth() {
    let (attachments, subpasses, _) = get_render_pass_desc::<Smooth>();
    assert_eq!(
        attachments,
        vec![kept(37, 4, 6), kept(37, 1, 6), kept(44, 4, 6), kept(44, 1, 6), kept(126, 4, 3)]
    );
    assert_eq!(
        subpasses[0].color_attachments,
        vec![
            SubpassColorAttachment {
                color: AttachmentRef { attachment: 0, layout: 2 },
                resolve: Some(AttachmentRef { attachment: 1, layout: 2 }),
            },
            SubpassColorAttachment {
                color: AttachmentRef { attachment: 2, layout: 2 },
                resolve: Some(AttachmentRef { attachment: 3, layout: 2 }),
            },
        ]
    );
    assert_eq!(
        subpasses[0].depth_stencil_attachment,
        Some(AttachmentRef { attachment: 4, layout: 3 })
    );
}

#[test]
fn the_typed_description_of_an_empty_pass() {
    let (attachments, subpasses, dependencies) = get_render_pass_desc::<Empty>();
    assert!(attachments.is_empty());
    assert!(dependencies.is_empty());
    assert_eq!(subpasses.len(), 1);
    assert!(subpasses[0].color_attachments.is_empty());
    assert_eq!(<() as InputAttachments>::desc(), vec![]);
    assert_eq!(<() as ColorAttachments<SampleCount1>>::desc(), vec![]);
}

#[test]
fn attachment_transitions_match_vulkan() {
    assert_eq!(
        color_attachment_transition(),
        ImageLayoutTransition {
            aspect: vk::ImageAspectFlags::COLOR.as_raw(),
            src_stage_mask: vk::PipelineStageFlags::TOP_OF_PIPE.as_raw(),
            dst_stage_mask: vk::PipelineStageFlags::COLOR_ATTACHMENT_OUTPUT.as_raw(),
            src_access_mask: 0,
            dst_access_mask: vk::AccessFlags::MEMORY_READ.as_raw(),
            old_layout: vk::ImageLayout::UNDEFINED.as_raw(),
            new_layout: vk::ImageLayout::TRANSFER_SRC_OPTIMAL.as_raw(),
        }
    );
    assert_eq!(
        depth_attachment_transition(),
        ImageLayoutTransition {
            aspect: vk::ImageAspectFlags::DEPTH.as_raw(),
            src_stage_mask: vk::PipelineStageFlags::TOP_OF_PIPE.as_raw(),
            dst_stage_mask: vk::PipelineStageFlags::EARLY_FRAGMENT_TESTS.as_raw(),
            src_access_mask: 0,
            dst_access_mask: (vk::AccessFlags::DEPTH_STENCIL_ATTACHMENT_READ
                | vk::AccessFlags::DEPTH_STENCIL_ATTACHMENT_WRITE)
                .as_raw(),
            old_layout: vk::ImageLayout::UNDEFINED.as_raw(),
            new_layout: vk::ImageLayout::DEPTH_STENCIL_ATTACHMENT_OPTIMAL.as_raw(),
        }
    );
}

#[test]
fn a_created_colour_attachment_always_supports_being_one() {
    let made = ColorAttachment::<B8G8R8A8Unorm>::create(
        1,
        2,
        DynImageUsage::transfer_src(),
        extent(),
    );
    assert_eq!(made.image.image, 1);
    assert_eq!(made.image.usage().bits(), 0x11);
    assert_eq!(made.image.layout, vk::ImageLayout::TRANSFER_SRC_OPTIMAL.as_raw());
    assert_eq!(made.image.extent(), extent());
    assert_eq!(made.view.image_view, 2);
    assert_eq!(made.view.usage().bits(), 0x11);
    let bare = ColorAttachment::<B8G8R8A8Unorm>::create(1, 2, DynImageUsage::empty(), extent());
    assert_eq!(bare.image.usage(), DynImageUsage::color_attachment());
    assert_eq!(ColorAttachmentType::<SampleCount1>::as_raw(&bare), (2, None));
}

#[test]
fn a_created_multisampled_attachment_has_two_images() {
    let made = MultisampledColorAttachment::<R8G8B8A8Unorm, SampleCount4>::create(
        1,
        2,
        3,
        4,
        DynImageUsage::transfer_src(),
        extent(),
    );
    assert_eq!(made.color_image.image, 1);
    assert_eq!(made.color_image_view.image_view, 2);
    assert_eq!(made.resolve_image.image, 3);
    assert_eq!(made.resolve_image_view.image_view, 4);
    assert_eq!(made.color_image.usage().bits(), 0x11);
    assert_eq!(made.resolve_image.usage().bits(), 0x11);
    assert_eq!(made.color_image.layout, 6);
    assert_eq!(made.resolve_image.layout, 6);
    assert_eq!(ColorAttachmentType::<SampleCount4>::as_raw(&made), (2, Some(4)));
}

#[test]
fn a_created_depth_attachment_is_in_the_depth_layout() {
    let made =
        DepthAttachment::<D32Sfloat, SampleCount4>::create(5, 6, DynImageUsage::empty(), extent());
    assert_eq!(made.image.image, 5);
    assert_eq!(made.image.usage(), DynImageUsage::depth_stencil_attachment());
    assert_eq!(made.image.layout, 3);
    assert_eq!(made.view.image_view, 6);
    assert_eq!(DepthAttachmentType::<SampleCount4>::as_raw(&made), Some(6));
    assert_eq!(DepthAttachmentType::<SampleCount1>::as_raw(&NoDepthAttachment), None);
}

#[test]
fn views_are_flattened_in_the_order_of_the_attachment_table() {
    assert_eq!(
        flatten_views(&[1, 2], &[(3, None), (4, Some(5)), (6, None)], Some(7)),
        vec![1, 2, 3, 4, 5, 6, 7]
    );
    assert_eq!(flatten_views(&[], &[(4, Some(5))], None), vec![4, 5]);
    assert_eq!(flatten_views(&[], &[], None), Vec::<u64>::new());
}

#[test]
fn the_views_of_typed_attachments_line_up_with_the_pass() {
    let first = MultisampledColorAttachment::<R8G8B8A8Unorm, SampleCount4>::create(
        1,
        11,
        2,
        12,
        DynImageUsage::empty(),
        extent(),
    );
    let second = MultisampledColorAttachment::<B8G8R8A8Unorm, SampleCount4>::create(
        3,
        13,
        4,
        14,
        DynImageUsage::empty(),
        extent(),
    );
    let depth =
        DepthAttachment::<D32Sfloat, SampleCount4>::create(5, 15, DynImageUsage::empty(), extent());
    let attachments = Attachments::<Smooth>::create(extent(), (), (first, second), depth);
    assert_eq!(attachments.extent(), extent());
    assert_eq!(attachments.color_attachments().0.color_image.image, 1);
    assert_eq!(attachments.depth_attachment().image.image, 5);
    let views = attachments.as_raw();
    assert_eq!(views, vec![11, 12, 13, 14, 15]);
    let (table, subpasses, _) = get_render_pass_desc::<Smooth>();
    assert_eq!(views.len(), table.len());
    let used = &subpasses[0].color_attachments;
    assert_eq!(views[used[0].color.attachment as usize], 11);
    assert_eq!(views[used[0].resolve.unwrap().attachment as usize], 12);
    assert_eq!(views[used[1].color.attachment as usize], 13);
    assert_eq!(views[used[1].resolve.unwrap().attachment as usize], 14);
    assert_eq!(
        views[subpasses[0].depth_stencil_attachment.unwrap().attachment as usize],
        15
    );
}

#[test]
fn clear_values_carry_the_encodings_of_their_components() {
    let red = color([1.0f32.to_bits(), 0, 0, 1.0f32.to_bits()]);
    assert_eq!(
        ColorClearValue::as_raw(&red),
        ClearColorValue { red: 0x3F80_0000, green: 0, blue: 0, alpha: 0x3F80_0000 }
    );
    assert_eq!(ColorClearValues::as_raw(&()), vec![]);
    assert_eq!(ColorClearValues::as_raw(&(red,)), vec![ColorClearValue::as_raw(&red)]);
    let blue = color([0, 0, 1.0f32.to_bits(), 0]);
    assert_eq!(
        ColorClearValues::as_raw(&(red, blue)),
        vec![ColorClearValue::as_raw(&red), ColorClearValue::as_raw(&blue)]
    );
    assert_eq!(DepthClearValue::as_raw(&()), None);
    assert_eq!(
        DepthClearValue::as_raw(&Scalar::from_bits(1.0f32.to_bits())),
        Some(ClearDepthStencilValue { depth: 0x3F80_0000, stencil: 0 })
    );
}

#[test]
fn colours_are_cleared_under_their_position_and_depth_under_none() {
    let a = ClearColorValue { red: 1, green: 2, blue: 3, alpha: 4 };
    let b = ClearColorValue { red: 5, green: 6, blue: 7, alpha: 8 };
    let d = ClearDepthStencilValue { depth: 9, stencil: 0 };
    assert_eq!(
        clear_attachments(2, &[a, b], Some(d)),
        vec![
            ClearAttachment {
                aspect_mask: vk::ImageAspectFlags::COLOR.as_raw(),
                color_attachment: 2,
                clear_value: ClearValue::Color(a),
            },
            ClearAttachment {
                aspect_mask: vk::ImageAspectFlags::COLOR.as_raw(),
                color_attachment: 3,
                clear_value: ClearValue::Color(b),
            },
            ClearAttachment {
                aspect_mask: vk::ImageAspectFlags::DEPTH.as_raw(),
                color_attachment: vk::ATTACHMENT_UNUSED,
                clear_value: ClearValue::DepthStencil(d),
            },
        ]
    );
    assert_eq!(clear_attachments(0, &[], None), vec![]);
    assert_eq!(clear_attachments(0, &[a], None).len(), 1);
}

#[test]
fn typed_attachments_are_cleared_with_typed_values() {
    let target = ColorAttachment::<B8G8R8A8Unorm>::create(1, 2, DynImageUsage::empty(), extent());
    let attachments = Attachments::<Plain>::create(extent(), (), (target,), NoDepthAttachment);
    let grey = color([0.5f32.to_bits(); 4]);
    assert_eq!(
        attachments.clears((grey,), ()),
        vec![ClearAttachment {
            aspect_mask: 1,
            color_attachment: 0,
            clear_value: ClearValue::Color(ClearColorValue {
                red: 0x3F00_0000,
                green: 0x3F00_0000,
                blue: 0x3F00_0000,
                alpha: 0x3F00_0000,
            }),
        }]
    );
}

#[test]
fn the_depth_attachment_clears_to_a_depth_with_stencil_zero() {
    let depth =
        DepthAttachment::<D32Sfloat, SampleCount4>::create(5, 6, DynImageUsage::empty(), extent());
    let half = Scalar::from_bits(0.5f32.to_bits());
    assert_eq!(
        DepthAttachmentType::<SampleCount4>::clear(&depth, half),
        Some(ClearValue::DepthStencil(ClearDepthStencilValue { depth: 0x3F00_0000, stencil: 0 }))
    );
    assert_eq!(DepthAttachmentType::<SampleCount1>::clear(&NoDepthAttachment, half), None);
    let white = color([1.0f32.to_bits(); 4]);
    assert_eq!(InputAttachments::clears(&(), white, half), vec![]);
    assert_eq!(InputAttachments::as_raw(&()), Vec::<u64>::new());
}

#[test]
fn a_render_pass_keeps_its_handle() {
    assert_eq!(RenderPass::<Plain>::create(99).render_pass, 99);
}
