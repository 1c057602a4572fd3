use ash::vk;
use mars::buffer::{Buffer, UniformBufferUsage};
use mars::function::{
    bindings_descs_to_raw, blend_states, check_vertex_layout, descriptor_pool_sizes,
    writes_to_raw, Argument, Arguments, Binding, BindingDesc, BindingType, Bindings,
    AttributeDesc, AttributeFormat, Parameter, ParameterDesc, Parameters, WriteArgument,
    WriteBacking, WriteSampledImageArgument, MAX_SETS, PER_BINDING,
};
use mars::image::format::R8G8B8A8Unorm;
use mars::image::usage::SampledImage as SampledUsage;
use mars::image::{Image, SampledImage};
use mars::math::{Mat4, Mvp, Vec2, Vec3, Vec4};
use mars::raw::{
    DescriptorBufferInfo, DescriptorImageInfo, DescriptorPoolSize, DescriptorSetLayoutBinding,
    Extent2D, PipelineColorBlendAttachmentState, WriteDescriptorSet,
};

fn formats(descs: &[AttributeDesc]) -> Vec<AttributeFormat> {
    descs.iter().map(|d| d.format).collect()
}

fn sampled(image: u64, view: u64, sampler: u64) -> SampledImage<R8G8B8A8Unorm> {
    let image = Image::<SampledUsage, R8G8B8A8Unorm>::make_image(
        image,
        SampledUsage,
        Extent2D { width: 4, height: 4 },
    );
    SampledImage::create(image, view, sampler)
}

#[test]
fn vectors_are_single_attributes() {
    assert_eq!(formats(&Vec2::attributes()), vec![AttributeFormat::Vec2F]);
    assert_eq!(formats(&Vec3::attributes()), vec![AttributeFormat::Vec3F]);
    assert_eq!(formats(&Vec4::attributes()), vec![AttributeFormat::Vec4F]);
}

#[test]
fn a_pair_has_the_attributes_of_both_parts_in_order() {
    assert_eq!(
        formats(&<(Vec3, Vec2)>::attributes()),
        vec![AttributeFormat::Vec3F, AttributeFormat::Vec2F]
    );
    assert_eq!(
        formats(&<((Vec3, Vec4), Vec2)>::attributes()),
        vec![AttributeFormat::Vec3F, AttributeFormat::Vec4F, AttributeFormat::Vec2F]
    );
    assert_eq!(
        formats(&<(Vec3, (Vec4, Vec2))>::attributes()),
        vec![AttributeFormat::Vec3F, AttributeFormat::Vec4F, AttributeFormat::Vec2F]
    );
}

#[test]
fn parameter_tuples_give_one_description_for_each_slot() {
    let one = <(Vec3,) as Parameters>::parameters();
    assert_eq!(one.len(), 1);
    assert_eq!(formats(&one[0].attributes), vec![AttributeFormat::Vec3F]);
    let two = <(Vec3, (Vec2, Vec4)) as Parameters>::parameters();
    assert_eq!(two.len(), 2);
    assert_eq!(formats(&two[0].attributes), vec![AttributeFormat::Vec3F]);
    assert_eq!(
        formats(&two[1].attributes),
        vec![AttributeFormat::Vec2F, AttributeFormat::Vec4F]
    );
    let three = <(Vec2, Vec3, Vec4) as Parameters>::parameters();
    assert_eq!(three.len(), 3);
    assert_eq!(formats(&three[2].attributes), vec![AttributeFormat::Vec4F]);
}

#[test]
fn ordinary_vertex_layouts_fit() {
    assert!(check_vertex_layout(&[]));
    assert!(check_vertex_layout(&<(Vec3, (Vec2, Vec4)) as Parameters>::parameters()));
    assert!(check_vertex_layout(&[ParameterDesc { attributes: Vec::new() }]));
}

#[test]
fn bindings_lower_to_consecutive_slots_for_both_stages() {
    let bindings = [
        BindingDesc { binding_type: BindingType::Uniform, count: 1 },
        BindingDesc { binding_type: BindingType::SampledImage, count: 3 },
    ];
    let stages = (vk::ShaderStageFlags::VERTEX | vk::ShaderStageFlags::FRAGMENT).as_raw();
    assert_eq!(stages, 0x11);
    assert_eq!(
        bindings_descs_to_raw(&bindings),
        vec![
            DescriptorSetLayoutBinding {
                binding: 0,
                descriptor_type: 6,
                descriptor_count: 1,
                stage_flags: stages,
            },
            DescriptorSetLayoutBinding {
                binding: 1,
                descriptor_type: 1,
                descriptor_count: 3,
                stage_flags: stages,
            },
        ]
    );
    assert!(bindings_descs_to_raw(&[]).is_empty());
}

#[test]
fn the_pool_holds_a_fixed_number_of_descriptors_for_each_binding() {
    assert_eq!(MAX_SETS, 1024);
    assert_eq!(PER_BINDING, 128);
    let bindings = [
        BindingDesc { binding_type: BindingType::SampledImage, count: 1 },
        BindingDesc { binding_type: BindingType::Uniform, count: 7 },
    ];
    assert_eq!(
        descriptor_pool_sizes(&bindings),
        vec![
            DescriptorPoolSize { ty: 1, descriptor_count: 128 },
            DescriptorPoolSize { ty: 6, descriptor_count: 128 },
        ]
    );
}

#[test]
fn a_pool_without_bindings_still_has_one_size() {
    assert_eq!(
        descriptor_pool_sizes(&[]),
        vec![DescriptorPoolSize { ty: 6, descriptor_count: 1 }]
    );
}

#[test]
fn binding_types_describe_one_descriptor_each() {
    let uniform = BindingDesc { binding_type: BindingType::Uniform, count: 1 };
    let image = BindingDesc { binding_type: BindingType::SampledImage, count: 1 };
    assert_eq!(<Vec3 as Binding>::description(), uniform);
    assert_eq!(<Mat4 as Binding>::description(), uniform);
    assert_eq!(<Mvp as Binding>::description(), uniform);
    assert_eq!(<SampledImage<R8G8B8A8Unorm> as Binding>::description(), image);
}

#[test]
fn binding_tuples_describe_their_parts_in_order() {
    let uniform = BindingDesc { binding_type: BindingType::Uniform, count: 1 };
    let image = BindingDesc { binding_type: BindingType::SampledImage, count: 1 };
    assert_eq!(<() as Bindings>::descriptions(), vec![]);
    assert_eq!(<(Mvp,) as Bindings>::descriptions(), vec![uniform]);
    assert_eq!(
        <(SampledImage<R8G8B8A8Unorm>, Mvp) as Bindings>::descriptions(),
        vec![image, uniform]
    );
    assert_eq!(
        <(Mvp, SampledImage<R8G8B8A8Unorm>, Vec3) as Bindings>::descriptions(),
        vec![uniform, image, uniform]
    );
}

#[test]
fn a_sampled_image_is_written_with_its_handles_and_layout() {
    let image = sampled(1, 2, 3);
    match image.as_write() {
        WriteArgument::SampledImage(write) => assert_eq!(
            write,
            WriteSampledImageArgument {
                sampler: 3,
                image_view: 2,
                image_layout: vk::ImageLayout::SHADER_READ_ONLY_OPTIMAL.as_raw(),
            }
        ),
        WriteArgument::Uniform(_) => panic!("an image is no buffer"),
    }
}

#[test]
fn argument_tuples_write_their_parts_in_order() {
    let mvp = Buffer::<UniformBufferUsage, Mvp>::make_item_buffer(10);
    let light = Buffer::<UniformBufferUsage, Vec3>::make_item_buffer(11);
    let texture = sampled(1, 2, 3);
    assert!(().as_writes().is_empty());
    let one = (mvp,);
    let writes = one.as_writes();
    assert_eq!(writes.len(), 1);
    assert_eq!(writes[0].descriptor_type(), 6);
    let (mvp,) = one;
    let three = (mvp, texture, light);
    let writes = three.as_writes();
    let types: Vec<i32> = writes.iter().map(|w| w.descriptor_type()).collect();
    assert_eq!(types, vec![6, 1, 6]);
    let (mvp, texture, _) = three;
    let two = (texture, mvp);
    let types: Vec<i32> = two.as_writes().iter().map(|w| w.descriptor_type()).collect();
    assert_eq!(types, vec![1, 6]);
}

#[test]
fn writes_lower_to_one_descriptor_for_each_binding() {
    let mvp = Buffer::<UniformBufferUsage, Mvp>::make_item_buffer(10);
    let texture = sampled(1, 2, 3);
    let arguments = (mvp, texture);
    let writes = arguments.as_writes();
    let (raw, backing) = writes_to_raw(77, &writes);
    assert_eq!(
        raw,
        vec![
            WriteDescriptorSet {
                dst_set: 77,
                dst_binding: 0,
                dst_array_element: 0,
                descriptor_count: 1,
                descriptor_type: vk::DescriptorType::UNIFORM_BUFFER.as_raw(),
            },
            WriteDescriptorSet {
                dst_set: 77,
                dst_binding: 1,
                dst_array_element: 0,
                descriptor_count: 1,
                descriptor_type: vk::DescriptorType::COMBINED_IMAGE_SAMPLER.as_raw(),
            },
        ]
    );
    assert_eq!(backing.len(), 2);
    match &backing[0] {
        WriteBacking::Buffer(infos) => {
            assert_eq!(infos, &vec![DescriptorBufferInfo { buffer: 10, offset: 0, range: 192 }])
        }
        WriteBacking::Image(_) => panic!("the first write is a buffer"),
    }
    match &backing[1] {
        WriteBacking::Image(infos) => assert_eq!(
            infos,
            &vec![DescriptorImageInfo { sampler: 3, image_view: 2, image_layout: 5 }]
        ),
        WriteBacking::Buffer(_) => panic!("the second write is an image"),
    }
}

#[test]
fn no_writes_lower_to_nothing() {
    let (raw, backing) = writes_to_raw(77, &[]);
    assert!(raw.is_empty());
    assert!(backing.is_empty());
}

#[test]
fn blend_states_are_alpha_blending_on_all_channels() {
    let states = blend_states(2);
    let expected = PipelineColorBlendAttachmentState {
        blend_enable: true,
        src_color_blend_factor: vk::BlendFactor::SRC_ALPHA.as_raw(),
        dst_color_blend_factor: vk::BlendFactor::ONE_MINUS_SRC_ALPHA.as_raw(),
        color_blend_op: vk::BlendOp::ADD.as_raw(),
        src_alpha_blend_factor: vk::BlendFactor::ONE.as_raw(),
        dst_alpha_blend_factor: vk::BlendFactor::ZERO.as_raw(),
        alpha_blend_op: vk::BlendOp::ADD.as_raw(),
        color_write_mask: vk::ColorComponentFlags::all().as_raw(),
    };
    assert_eq!(states, vec![expected, expected]);
    assert!(blend_states(0).is_empty());
}
