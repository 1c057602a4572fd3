use ash::vk;
use mars::buffer::{Buffer, IndexBufferUsage, UniformBufferUsage, VertexBufferUsage};
use mars::function::{
    create_blend_states, create_multisample_state, FunctionDef, FunctionImpl, FunctionPrototype,
    WriteBacking,
};
use mars::image::format::{B8G8R8A8Unorm, D32Sfloat, R8G8B8A8Unorm};
use mars::image::samples::SampleCount4;
use mars::image::usage::{DynImageUsage, SampledImage as SampledUsage};
use mars::image::{Image, SampledImage};
use mars::math::{Mvp, Scalar, Vec2, Vec3, Vec4};
use mars::pass::{
    Attachments, DepthAttachment, MultisampledColorAttachment, RenderPass, RenderPassPrototype,
};
use mars::raw::{
    ClearAttachment, ClearColorValue, ClearDepthStencilValue, ClearRect, ClearValue,
    DescriptorBufferInfo, DescriptorImageInfo, DescriptorPoolSize, Extent2D, Offset2D,
    PipelineMultisampleStateCreateInfo, Rect2D, VertexInputAttributeDescription,
    VertexInputBindingDescription,
};
use mars::render::{whole_area, DrawArgs, DrawCommand, RenderEngine};
use mars::target::Target;
use mars::window::{WindowEngine, SWAPCHAIN_IMAGE_USAGE};

struct Scene;

impl RenderPassPrototype for Scene {
    type SampleCount = SampleCount4;
    type InputAttachments = ();
    type ColorAttachments = (MultisampledColorAttachment<B8G8R8A8Unorm, SampleCount4>,);
    type DepthAttachment = DepthAttachment<D32Sfloat, SampleCount4>;
}

struct Textured;

impl FunctionPrototype for Textured {
    type RenderPass = Scene;
    type VertexInput = (Vec3, Vec2);
    type Bindings = (Mvp, SampledImage<R8G8B8A8Unorm>);
}

fn extent() -> Extent2D {
    Extent2D { width: 1024, height: 768 }
}

fn whole() -> Rect2D {
    Rect2D { offset: Offset2D { x: 0, y: 0 }, extent: extent() }
}

fn attachments(first_handle: u64) -> Attachments<Scene> {
    let h = first_handle;
    let color = MultisampledColorAttachment::<B8G8R8A8Unorm, SampleCount4>::create(
        h,
        h + 1,
        h + 2,
        h + 3,
        DynImageUsage::transfer_src(),
        extent(),
    );
    let depth = DepthAttachment::<D32Sfloat, SampleCount4>::create(
        h + 4,
        h + 5,
        DynImageUsage::empty(),
        extent(),
    );
    Attachments::create(extent(), (), (color,), depth)
}

fn target() -> Target<Scene> {
    Target::create(&RenderPass::create(500), attachments(10), 600)
}

fn texture() -> SampledImage<R8G8B8A8Unorm> {
    let image = Image::<SampledUsage, R8G8B8A8Unorm>::make_image(
        30,
        SampledUsage,
        Extent2D { width: 16, height: 16 },
    );
    SampledImage::create(image, 31, 32)
}

#[test]
fn the_pipeline_tables_of_a_textured_function() {
    let desc = FunctionDef::<Textured>::desc();
    assert_eq!(
        desc.vertex_bindings,
        vec![VertexInputBindingDescription { binding: 0, stride: 20, input_rate: 0 }]
    );
    assert_eq!(
        desc.vertex_attributes,
        vec![
            VertexInputAttributeDescription { location: 0, binding: 0, format: 106, offset: 0 },
            VertexInputAttributeDescription { location: 1, binding: 0, format: 103, offset: 12 },
        ]
    );
    assert_eq!(desc.max_sets, 1024);
    assert_eq!(
        desc.pool_sizes,
        vec![
            DescriptorPoolSize { ty: 6, descriptor_count: 128 },
            DescriptorPoolSize { ty: 1, descriptor_count: 128 },
        ]
    );
    assert_eq!(desc.descriptor_bindings.len(), 2);
    assert_eq!(desc.descriptor_bindings[0].descriptor_type, 6);
    assert_eq!(desc.descriptor_bindings[1].descriptor_type, 1);
    assert_eq!(desc.descriptor_bindings[1].binding, 1);
    assert_eq!(desc.color_blend_states.len(), 1);
    assert!(desc.color_blend_states[0].blend_enable);
    assert!(!desc.logic_op_enable);
    let one = Scalar::from_bits(1.0f32.to_bits());
    assert_eq!(desc.blend_constants, Vec4::new(one, one, one, one));
    assert_eq!(desc.multisample_state.rasterization_samples, 4);
    assert_eq!(desc.subpass, 0);
}

#[test]
fn blend_and_multisample_state_follow_the_render_pass() {
    assert_eq!(create_blend_states::<Scene>().len(), 1);
    assert_eq!(
        create_multisample_state::<Scene>(),
        PipelineMultisampleStateCreateInfo {
            rasterization_samples: vk::SampleCountFlags::TYPE_4.as_raw(),
            sample_shading_enable: false,
            alpha_to_coverage_enable: false,
            alpha_to_one_enable: false,
        }
    );
}

#[test]
fn shaders_are_kept_as_given() {
    let shaders = FunctionImpl::<Textured>::from_raw(vec![0x0723_0203, 1], vec![0x0723_0203, 2]);
    assert_eq!(shaders.vert, vec![0x0723_0203, 1]);
    assert_eq!(shaders.frag, vec![0x0723_0203, 2]);
}

#[test]
fn arguments_are_written_into_their_descriptor_set() {
    let function = FunctionDef::<Textured>::create(1, 2, 3, 4);
    assert_eq!(function.descriptor_pool, 1);
    assert_eq!(function.descriptor_set_layout, 2);
    assert_eq!(function.pipeline, 3);
    assert_eq!(function.pipeline_layout, 4);
    let mvp = Buffer::<UniformBufferUsage, Mvp>::make_item_buffer(20);
    let (container, writes, backing) = function.make_arguments(70, (mvp, texture()));
    assert_eq!(container.descriptor_set, 70);
    assert_eq!(container.arguments.0.buffer, 20);
    assert_eq!(container.arguments.1.sampler.sampler, 32);
    assert_eq!(writes.len(), 2);
    let layout = FunctionDef::<Textured>::desc().descriptor_bindings;
    for (i, write) in writes.iter().enumerate() {
        assert_eq!(write.dst_set, 70);
        assert_eq!(write.dst_binding, layout[i].binding);
        assert_eq!(write.descriptor_type, layout[i].descriptor_type);
        assert_eq!(write.descriptor_count, 1);
        assert_eq!(write.dst_array_element, 0);
    }
    match &backing[0] {
        WriteBacking::Buffer(infos) => {
            assert_eq!(infos, &vec![DescriptorBufferInfo { buffer: 20, offset: 0, range: 192 }])
        }
        WriteBacking::Image(_) => panic!("the first binding is a buffer"),
    }
    match &backing[1] {
        WriteBacking::Image(infos) => assert_eq!(
            infos,
            &vec![DescriptorImageInfo { sampler: 32, image_view: 31, image_layout: 5 }]
        ),
        WriteBacking::Buffer(_) => panic!("the second binding is an image"),
    }
}

#[test]
fn a_framebuffer_spans_all_the_views_of_the_attachments() {
    let attachments = attachments(10);
    let info = Target::<Scene>::create_framebuffer(500, &attachments);
    assert_eq!(info.render_pass, 500);
    assert_eq!(info.attachments, vec![11, 13, 15]);
    assert_eq!(info.width, 1024);
    assert_eq!(info.height, 768);
    assert_eq!(info.layers, 1);
}

#[test]
fn a_target_keeps_render_pass_attachments_and_framebuffer() {
    let mut target = target();
    assert_eq!(target.render_pass, 500);
    assert_eq!(target.framebuffer, 600);
    assert_eq!(target.attachments().as_raw(), vec![11, 13, 15]);
    assert_eq!(target.color_attachments().0.color_image.image, 10);
    target.change_attachments(attachments(40), 601);
    assert_eq!(target.render_pass, 500);
    assert_eq!(target.framebuffer, 601);
    assert_eq!(target.attachments().as_raw(), vec![41, 43, 45]);
    assert_eq!(target.color_attachments().0.color_image.image, 40);
}

#[test]
fn clearing_covers_the_whole_target() {
    let engine = RenderEngine::new(900);
    assert_eq!(engine.command_pool, 900);
    let one = Scalar::from_bits(1.0f32.to_bits());
    let zero = Scalar::from_bits(0);
    let commands = engine.clear(&target(), (Vec4::new(zero, zero, zero, one),), one);
    assert_eq!(commands.render_pass, 500);
    assert_eq!(commands.framebuffer, 600);
    assert_eq!(commands.render_area, whole());
    assert_eq!(
        commands.clear_attachments,
        vec![
            ClearAttachment {
                aspect_mask: vk::ImageAspectFlags::COLOR.as_raw(),
                color_attachment: 0,
                clear_value: ClearValue::Color(ClearColorValue {
                    red: 0,
                    green: 0,
                    blue: 0,
                    alpha: 0x3F80_0000,
                }),
            },
            ClearAttachment {
                aspect_mask: vk::ImageAspectFlags::DEPTH.as_raw(),
                color_attachment: vk::ATTACHMENT_UNUSED,
                clear_value: ClearValue::DepthStencil(ClearDepthStencilValue {
                    depth: 0x3F80_0000,
                    stencil: 0,
                }),
            },
        ]
    );
    let rect = ClearRect { rect: whole(), base_array_layer: 0, layer_count: 1 };
    assert_eq!(commands.clear_rects, vec![rect, rect]);
}

#[test]
fn the_whole_area_starts_at_the_origin() {
    assert_eq!(whole_area(extent()), whole());
}

#[test]
fn a_pass_draws_every_draw_once_with_all_its_indices() {
    let engine = RenderEngine::new(900);
    let function = FunctionDef::<Textured>::create(1, 2, 3, 4);
    let mvp = Buffer::<UniformBufferUsage, Mvp>::make_item_buffer(20);
    let (first, _, _) = function.make_arguments(70, (mvp, texture()));
    let mvp = Buffer::<UniformBufferUsage, Mvp>::make_item_buffer(21);
    let (second, _, _) = function.make_arguments(71, (mvp, texture()));
    let zero = Scalar::from_bits(0);
    let vertex = (Vec3 { x: zero, y: zero, z: zero }, Vec2 { x: zero, y: zero });
    let vertices = Buffer::<VertexBufferUsage, [(Vec3, Vec2)]>::make_array_buffer(
        80,
        &[vertex, vertex, vertex, vertex],
    );
    let quad = Buffer::<IndexBufferUsage, [u32]>::make_array_buffer(81, &[0, 1, 2, 2, 3, 0]);
    let triangle = Buffer::<IndexBufferUsage, [u32]>::make_array_buffer(82, &[0, 1, 2]);
    let draws = [
        DrawArgs::from((&first, &vertices, &quad)),
        DrawArgs::from((&second, &vertices, &triangle)),
    ];
    let commands = engine.pass(&target(), &function, &draws);
    assert_eq!(commands.render_pass, 500);
    assert_eq!(commands.framebuffer, 600);
    assert_eq!(commands.render_area, whole());
    assert_eq!(commands.viewport, extent());
    assert_eq!(f32::from_bits(commands.min_depth.to_bits()), 0.0);
    assert_eq!(f32::from_bits(commands.max_depth.to_bits()), 1.0);
    assert_eq!(commands.scissor, whole());
    assert_eq!(commands.bind_point, vk::PipelineBindPoint::GRAPHICS.as_raw());
    assert_eq!(commands.pipeline, 3);
    let draw = |descriptor_set, index_buffer, index_count| DrawCommand {
        pipeline_layout: 4,
        descriptor_set,
        first_binding: 0,
        vertex_buffer: 80,
        vertex_buffer_offset: 0,
        index_buffer,
        index_buffer_offset: 0,
        index_type: vk::IndexType::UINT32.as_raw(),
        index_count,
        instance_count: 1,
        first_index: 0,
        vertex_offset: 0,
        first_instance: 0,
    };
    assert_eq!(commands.draws, vec![draw(70, 81, 6), draw(71, 82, 3)]);
}

#[test]
fn a_pass_without_draws_records_none() {
    let engine = RenderEngine::new(900);
    let function = FunctionDef::<Textured>::create(1, 2, 3, 4);
    let commands = engine.pass(&target(), &function, &[]);
    assert!(commands.draws.is_empty());
    assert_eq!(commands.pipeline, 3);
}

#[test]
fn draw_arguments_are_copied_by_reference() {
    let function = FunctionDef::<Textured>::create(1, 2, 3, 4);
    let mvp = Buffer::<UniformBufferUsage, Mvp>::make_item_buffer(20);
    let (bound, _, _) = function.make_arguments(70, (mvp, texture()));
    let zero = Scalar::from_bits(0);
    let vertex = (Vec3 { x: zero, y: zero, z: zero }, Vec2 { x: zero, y: zero });
    let vertices = Buffer::<VertexBufferUsage, [(Vec3, Vec2)]>::make_array_buffer(80, &[vertex]);
    let indices = Buffer::<IndexBufferUsage, [u32]>::make_array_buffer(81, &[0]);
    let draw = DrawArgs::from((&bound, &vertices, &indices));
    let copy = draw.clone();
    let moved = draw;
    assert_eq!(copy.bindings.descriptor_set, 70);
    assert_eq!(copy.vertices.buffer, 80);
    assert_eq!(copy.indices.buffer, 81);
    assert_eq!(moved.indices.len, 1);
    assert_eq!(draw.vertices.len, 1);
}

#[test]
fn presenting_updates_the_extent_only_when_it_changed() {
    assert_eq!(SWAPCHAIN_IMAGE_USAGE, vk::ImageUsageFlags::TRANSFER_DST.as_raw());
    let mut window = WindowEngine::new(RenderEngine::new(900), extent());
    assert_eq!(window.current_extent(), extent());
    assert_eq!(window.present(None), None);
    assert_eq!(window.current_extent(), extent());
    let smaller = Extent2D { width: 640, height: 480 };
    assert_eq!(window.present(Some(smaller)), Some(smaller));
    assert_eq!(window.current_extent(), smaller);
    assert_eq!(window.render.command_pool, 900);
    assert_eq!(window.present(None), None);
    assert_eq!(window.current_extent(), smaller);
}
