//! The flat tables and numeric codes of the Vulkan interface, as plain values.
//!
//! Every structure here holds integers only: an enumerant is its `i32` code, a
//! set of flags its `u32` mask, a device object its 64-bit handle.

use vstd::prelude::*;

verus! {

pub const FORMAT_R8G8B8A8_UNORM: i32 = 37;
pub const FORMAT_R8G8B8A8_SRGB: i32 = 43;
pub const FORMAT_B8G8R8A8_UNORM: i32 = 44;
pub const FORMAT_R32G32_SFLOAT: i32 = 103;
pub const FORMAT_R32G32B32_SFLOAT: i32 = 106;
pub const FORMAT_R32G32B32A32_SFLOAT: i32 = 109;
pub const FORMAT_D32_SFLOAT: i32 = 126;

pub const VERTEX_INPUT_RATE_VERTEX: i32 = 0;

pub const DESCRIPTOR_TYPE_COMBINED_IMAGE_SAMPLER: i32 = 1;
pub const DESCRIPTOR_TYPE_UNIFORM_BUFFER: i32 = 6;

pub const SHADER_STAGE_VERTEX: u32 = 0x1;
pub const SHADER_STAGE_FRAGMENT: u32 = 0x10;

pub const IMAGE_LAYOUT_UNDEFINED: i32 = 0;
pub const IMAGE_LAYOUT_COLOR_ATTACHMENT_OPTIMAL: i32 = 2;
pub const IMAGE_LAYOUT_DEPTH_STENCIL_ATTACHMENT_OPTIMAL: i32 = 3;
pub const IMAGE_LAYOUT_SHADER_READ_ONLY_OPTIMAL: i32 = 5;
pub const IMAGE_LAYOUT_TRANSFER_SRC_OPTIMAL: i32 = 6;
pub const IMAGE_LAYOUT_TRANSFER_DST_OPTIMAL: i32 = 7;

pub const IMAGE_USAGE_TRANSFER_SRC: u32 = 0x01;
pub const IMAGE_USAGE_TRANSFER_DST: u32 = 0x02;
pub const IMAGE_USAGE_SAMPLED: u32 = 0x04;
pub const IMAGE_USAGE_STORAGE: u32 = 0x08;
pub const IMAGE_USAGE_COLOR_ATTACHMENT: u32 = 0x10;
pub const IMAGE_USAGE_DEPTH_STENCIL_ATTACHMENT: u32 = 0x20;
pub const IMAGE_USAGE_INPUT_ATTACHMENT: u32 = 0x80;

pub const IMAGE_ASPECT_COLOR: u32 = 0x1;
pub const IMAGE_ASPECT_DEPTH: u32 = 0x2;

pub const SAMPLE_COUNT_1: u32 = 0x1;
pub const SAMPLE_COUNT_2: u32 = 0x2;
pub const SAMPLE_COUNT_4: u32 = 0x4;
pub const SAMPLE_COUNT_8: u32 = 0x8;

pub const ATTACHMENT_LOAD_OP_LOAD: i32 = 0;
pub const ATTACHMENT_LOAD_OP_DONT_CARE: i32 = 2;
pub const ATTACHMENT_STORE_OP_STORE: i32 = 0;
pub const ATTACHMENT_STORE_OP_DONT_CARE: i32 = 1;

pub const ATTACHMENT_UNUSED: u32 = 0xFFFF_FFFF;

pub const BLEND_FACTOR_ZERO: i32 = 0;
pub const BLEND_FACTOR_ONE: i32 = 1;
pub const BLEND_FACTOR_SRC_ALPHA: i32 = 6;
pub const BLEND_FACTOR_ONE_MINUS_SRC_ALPHA: i32 = 7;
pub const BLEND_OP_ADD: i32 = 0;
pub const COLOR_COMPONENT_ALL: u32 = 0xF;

pub const PIPELINE_STAGE_TOP_OF_PIPE: u32 = 0x1;
pub const PIPELINE_STAGE_EARLY_FRAGMENT_TESTS: u32 = 0x100;
pub const PIPELINE_STAGE_COLOR_ATTACHMENT_OUTPUT: u32 = 0x400;
pub const PIPELINE_STAGE_ALL_GRAPHICS: u32 = 0x8000;
pub const PIPELINE_STAGE_ALL_COMMANDS: u32 = 0x1_0000;

pub const ACCESS_SHADER_READ: u32 = 0x20;
pub const ACCESS_DEPTH_STENCIL_ATTACHMENT_READ: u32 = 0x200;
pub const ACCESS_DEPTH_STENCIL_ATTACHMENT_WRITE: u32 = 0x400;
pub const ACCESS_MEMORY_READ: u32 = 0x8000;

pub const BUFFER_USAGE_TRANSFER_SRC: u32 = 0x1;
pub const BUFFER_USAGE_UNIFORM_BUFFER: u32 = 0x10;
pub const BUFFER_USAGE_INDEX_BUFFER: u32 = 0x40;
pub const BUFFER_USAGE_VERTEX_BUFFER: u32 = 0x80;

pub const MEMORY_PROPERTY_DEVICE_LOCAL: u32 = 0x1;

pub const PIPELINE_BIND_POINT_GRAPHICS: i32 = 0;
pub const INDEX_TYPE_UINT32: i32 = 1;

/// Width and height of an image, in texels.
#[derive(Debug, Copy, Clone, PartialEq, Eq, Structural)]
pub struct Extent2D {
    pub width: u32,
    pub height: u32,
}

/// Width, height and depth of an image, in texels.
#[derive(Debug, Copy, Clone, PartialEq, Eq, Structural)]
pub struct Extent3D {
    pub width: u32,
    pub height: u32,
    pub depth: u32,
}

/// A position inside an image.
#[derive(Debug, Copy, Clone, PartialEq, Eq, Structural)]
pub struct Offset2D {
    pub x: i32,
    pub y: i32,
}

/// A rectangle inside an image.
#[derive(Debug, Copy, Clone, PartialEq, Eq, Structural)]
pub struct Rect2D {
    pub offset: Offset2D,
    pub extent: Extent2D,
}

/// One vertex buffer slot of a pipeline.
#[derive(Debug, Copy, Clone, PartialEq, Eq, Structural)]
pub struct VertexInputBindingDescription {
    pub binding: u32,
    pub stride: u32,
    pub input_rate: i32,
}

/// One attribute that a vertex shader reads from a vertex buffer slot.
#[derive(Debug, Copy, Clone, PartialEq, Eq, Structural)]
pub struct VertexInputAttributeDescription {
    pub location: u32,
    pub binding: u32,
    pub format: i32,
    pub offset: u32,
}

/// One slot of a descriptor set layout.
#[derive(Debug, Copy, Clone, PartialEq, Eq, Structural)]
pub struct DescriptorSetLayoutBinding {
    pub binding: u32,
    pub descriptor_type: i32,
    pub descriptor_count: u32,
    pub stage_flags: u32,
}

/// How many descriptors of one type a descriptor pool can hand out.
#[derive(Debug, Copy, Clone, PartialEq, Eq, Structural)]
pub struct DescriptorPoolSize {
    pub ty: i32,
    pub descriptor_count: u32,
}

/// The range of a buffer that a descriptor refers to.
#[derive(Debug, Copy, Clone, PartialEq, Eq, Structural)]
pub struct DescriptorBufferInfo {
    pub buffer: u64,
    pub offset: u64,
    pub range: u64,
}

/// The sampler and image view that a descriptor refers to.
#[derive(Debug, Copy, Clone, PartialEq, Eq, Structural)]
pub struct DescriptorImageInfo {
    pub sampler: u64,
    pub image_view: u64,
    pub image_layout: i32,
}

/// One write into a descriptor set. What is written lies beside the write, in
/// a backing list at the same position.
#[derive(Debug, Copy, Clone, PartialEq, Eq, Structural)]
pub struct WriteDescriptorSet {
    pub dst_set: u64,
    pub dst_binding: u32,
    pub dst_array_element: u32,
    pub descriptor_count: u32,
    pub descriptor_type: i32,
}

/// How a pipeline blends what it draws into one colour attachment.
#[derive(Debug, Copy, Clone, PartialEq, Eq, Structural)]
pub struct PipelineColorBlendAttachmentState {
    pub blend_enable: bool,
    pub src_color_blend_factor: i32,
    pub dst_color_blend_factor: i32,
    pub color_blend_op: i32,
    pub src_alpha_blend_factor: i32,
    pub dst_alpha_blend_factor: i32,
    pub alpha_blend_op: i32,
    pub color_write_mask: u32,
}

/// How a pipeline treats the samples of a texel.
#[derive(Debug, Copy, Clone, PartialEq, Eq, Structural)]
pub struct PipelineMultisampleStateCreateInfo {
    pub rasterization_samples: u32,
    pub sample_shading_enable: bool,
    pub alpha_to_coverage_enable: bool,
    pub alpha_to_one_enable: bool,
}

/// What a device is asked for when an image is created.
#[derive(Debug, Copy, Clone, PartialEq, Eq, Structural)]
pub struct ImageCreateInfo {
    pub format: i32,
    pub extent: Extent3D,
    pub samples: u32,
    pub usage: u32,
    pub initial_layout: i32,
    pub memory_properties: u32,
}

/// A change of an image's layout, with the pipeline stages and the kinds of
/// access that it separates.
#[derive(Debug, Copy, Clone, PartialEq, Eq, Structural)]
pub struct ImageLayoutTransition {
    pub aspect: u32,
    pub src_stage_mask: u32,
    pub dst_stage_mask: u32,
    pub src_access_mask: u32,
    pub dst_access_mask: u32,
    pub old_layout: i32,
    pub new_layout: i32,
}

/// One attachment of a render pass: its format and sample count, what happens
/// to its contents at the start and the end of the pass, and the layouts in
/// which the pass finds and leaves it.
#[derive(Debug, Copy, Clone, PartialEq, Eq, Structural)]
pub struct Attachment {
    pub format: i32,
    pub samples: u32,
    pub load_op: i32,
    pub store_op: i32,
    pub stencil_load_op: i32,
    pub stencil_store_op: i32,
    pub initial_layout: i32,
    pub final_layout: i32,
}

/// A use of an attachment by a subpass: the attachment's position in the
/// render pass, and the layout in which the subpass uses it.
#[derive(Debug, Copy, Clone, PartialEq, Eq, Structural)]
pub struct AttachmentRef {
    pub attachment: u32,
    pub layout: i32,
}

/// A colour output of a subpass, with the attachment that its samples are
/// resolved into, if there is one.
#[derive(Debug, Copy, Clone, PartialEq, Eq, Structural)]
pub struct SubpassColorAttachment {
    pub color: AttachmentRef,
    pub resolve: Option<AttachmentRef>,
}

/// The attachments that one subpass uses.
#[derive(Debug, Clone, PartialEq, Eq)]
pub struct Subpass {
    pub input_attachments: Vec<AttachmentRef>,
    pub color_attachments: Vec<SubpassColorAttachment>,
    pub depth_stencil_attachment: Option<AttachmentRef>,
}

/// An ordering between two subpasses of a render pass.
#[derive(Debug, Copy, Clone, PartialEq, Eq, Structural)]
pub struct Dependency {
    pub src_subpass: u32,
    pub dst_subpass: u32,
    pub src_stage_mask: u32,
    pub dst_stage_mask: u32,
    pub src_access_mask: u32,
    pub dst_access_mask: u32,
}

/// The colour that an attachment is cleared to: the encodings of its red,
/// green, blue and alpha components.
#[derive(Debug, Copy, Clone, PartialEq, Eq, Structural)]
pub struct ClearColorValue {
    pub red: u32,
    pub green: u32,
    pub blue: u32,
    pub alpha: u32,
}

/// The depth, as its encoding, and the stencil value that an attachment is
/// cleared to.
#[derive(Debug, Copy, Clone, PartialEq, Eq, Structural)]
pub struct ClearDepthStencilValue {
    pub depth: u32,
    pub stencil: u32,
}

/// What an attachment is cleared to.
#[derive(Debug, Copy, Clone, PartialEq, Eq, Structural)]
pub enum ClearValue {
    Color(ClearColorValue),
    DepthStencil(ClearDepthStencilValue),
}

/// The clearing of one attachment inside a render pass.
#[derive(Debug, Copy, Clone, PartialEq, Eq, Structural)]
pub struct ClearAttachment {
    pub aspect_mask: u32,
    pub color_attachment: u32,
    pub clear_value: ClearValue,
}

/// The part of an attachment that is cleared.
#[derive(Debug, Copy, Clone, PartialEq, Eq, Structural)]
pub struct ClearRect {
    pub rect: Rect2D,
    pub base_array_layer: u32,
    pub layer_count: u32,
}

} // verus!
