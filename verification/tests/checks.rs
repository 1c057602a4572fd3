use mars::function::{
    check_function, check_vertex_layout, AttributeDesc, AttributeFormat, FunctionPrototype,
    ParameterDesc,
};
use mars::image::format::{B8G8R8A8Unorm, D32Sfloat, FormatType};
use mars::image::samples::{SampleCount1, SampleCount4};
use mars::math::{Scalar, Vec3, Vec4};
use mars::pass::{
    check_prototype, ColorAttachment, ColorAttachmentType, ColorAttachments, DepthAttachment,
    DepthAttachmentType, MultisampledColorAttachment, NoDepthAttachment, RenderPassPrototype,
};
use mars::raw::{FORMAT_D32_SFLOAT, FORMAT_R8G8B8A8_UNORM, IMAGE_ASPECT_COLOR, IMAGE_ASPECT_DEPTH};

/// A format that claims colour texels but has only depth.
struct DepthAsColor;

impl FormatType for DepthAsColor {
    type Pixel = Vec4;

    fn spec_as_raw() -> i32 {
        FORMAT_D32_SFLOAT
    }

    fn spec_aspect() -> u32 {
        IMAGE_ASPECT_DEPTH
    }

    fn as_raw() -> i32 {
        FORMAT_D32_SFLOAT
    }

    fn aspect() -> u32 {
        IMAGE_ASPECT_DEPTH
    }
}

/// A format that claims depth texels but has only colour.
struct ColorAsDepth;

impl FormatType for ColorAsDepth {
    type Pixel = Scalar;

    fn spec_as_raw() -> i32 {
        FORMAT_R8G8B8A8_UNORM
    }

    fn spec_aspect() -> u32 {
        IMAGE_ASPECT_COLOR
    }

    fn as_raw() -> i32 {
        FORMAT_R8G8B8A8_UNORM
    }

    fn aspect() -> u32 {
        IMAGE_ASPECT_COLOR
    }
}

struct Sound;

impl RenderPassPrototype for Sound {
    type SampleCount = SampleCount4;
    type InputAttachments = ();
    type ColorAttachments = (MultisampledColorAttachment<B8G8R8A8Unorm, SampleCount4>,);
    type DepthAttachment = DepthAttachment<D32Sfloat, SampleCount4>;
}

struct WrongColor;

impl RenderPassPrototype for WrongColor {
    type SampleCount = SampleCount1;
    type InputAttachments = ();
    type ColorAttachments = (ColorAttachment<B8G8R8A8Unorm>, ColorAttachment<DepthAsColor>);
    type DepthAttachment = NoDepthAttachment;
}

struct WrongDepth;

impl RenderPassPrototype for WrongDepth {
    type SampleCount = SampleCount1;
    type InputAttachments = ();
    type ColorAttachments = (ColorAttachment<B8G8R8A8Unorm>,);
    type DepthAttachment = DepthAttachment<ColorAsDepth, SampleCount1>;
}

struct OnSound;

impl FunctionPrototype for OnSound {
    type RenderPass = Sound;
    type VertexInput = (Vec3, Vec4);
    type Bindings = ();
}

struct OnWrongColor;

impl FunctionPrototype for OnWrongColor {
    type RenderPass = WrongColor;
    type VertexInput = Vec3;
    type Bindings = ();
}

#[test]
fn colour_attachments_need_a_format_with_colour() {
    assert!(<ColorAttachment<B8G8R8A8Unorm> as ColorAttachmentType<SampleCount1>>::check());
    assert!(!<ColorAttachment<DepthAsColor> as ColorAttachmentType<SampleCount1>>::check());
    assert!(<MultisampledColorAttachment<B8G8R8A8Unorm, SampleCount4> as ColorAttachmentType<
        SampleCount4,
    >>::check());
    assert!(!<MultisampledColorAttachment<DepthAsColor, SampleCount4> as ColorAttachmentType<
        SampleCount4,
    >>::check());
}

#[test]
fn a_tuple_of_colour_attachments_is_as_sound_as_its_parts() {
    assert!(<() as ColorAttachments<SampleCount1>>::check());
    assert!(<(ColorAttachment<B8G8R8A8Unorm>,) as ColorAttachments<SampleCount1>>::check());
    assert!(!<(ColorAttachment<DepthAsColor>,) as ColorAttachments<SampleCount1>>::check());
    assert!(!<(ColorAttachment<DepthAsColor>, ColorAttachment<B8G8R8A8Unorm>) as ColorAttachments<
        SampleCount1,
    >>::check());
    assert!(<(ColorAttachment<B8G8R8A8Unorm>, ColorAttachment<B8G8R8A8Unorm>) as ColorAttachments<
        SampleCount1,
    >>::check());
}

#[test]
fn depth_attachments_need_a_format_with_depth() {
    assert!(<DepthAttachment<D32Sfloat, SampleCount1> as DepthAttachmentType<SampleCount1>>::check());
    assert!(
        !<DepthAttachment<ColorAsDepth, SampleCount1> as DepthAttachmentType<SampleCount1>>::check()
    );
    assert!(<NoDepthAttachment as DepthAttachmentType<SampleCount1>>::check());
}

#[test]
fn a_render_pass_is_describable_if_all_its_attachments_are_sound() {
    assert!(check_prototype::<Sound>());
    assert!(!check_prototype::<WrongColor>());
    assert!(!check_prototype::<WrongDepth>());
}

#[test]
fn a_function_needs_sound_colour_attachments() {
    assert!(check_function::<OnSound>());
    assert!(!check_function::<OnWrongColor>());
}

#[test]
fn a_vertex_of_more_than_four_gigabytes_does_not_fit() {
    let attribute = AttributeDesc { format: AttributeFormat::Vec4F };
    let just_fits = ParameterDesc { attributes: vec![attribute; (1 << 28) - 1] };
    assert!(check_vertex_layout(std::slice::from_ref(&just_fits)));
    let too_wide = ParameterDesc { attributes: vec![attribute; 1 << 28] };
    assert!(!check_vertex_layout(&[too_wide]));
}
