//! Vertex inputs and shader bindings of a pipeline, and their flat form.

use core::marker::PhantomData;
use vstd::prelude::*;
use crate::buffer::{Buffer, UniformBufferUsage, UntypedBuffer};
use crate::image::format::FormatType;
use crate::image::samples::SampleCountType;
use crate::image::SampledImage;
use crate::math::{Mat4, Mvp, Scalar, Vec2, Vec3, Vec4, ONE_BITS};
use crate::pass::{ColorAttachments, RenderPassPrototype};
use crate::raw::{
    DescriptorBufferInfo, DescriptorImageInfo, DescriptorPoolSize, DescriptorSetLayoutBinding,
    PipelineColorBlendAttachmentState, PipelineMultisampleStateCreateInfo,
    VertexInputAttributeDescription, VertexInputBindingDescription, WriteDescriptorSet,
    BLEND_FACTOR_ONE, BLEND_FACTOR_ONE_MINUS_SRC_ALPHA, BLEND_FACTOR_SRC_ALPHA, BLEND_FACTOR_ZERO,
    BLEND_OP_ADD, COLOR_COMPONENT_ALL, DESCRIPTOR_TYPE_COMBINED_IMAGE_SAMPLER,
    DESCRIPTOR_TYPE_UNIFORM_BUFFER, FORMAT_R32G32B32A32_SFLOAT, FORMAT_R32G32B32_SFLOAT,
    FORMAT_R32G32_SFLOAT, SHADER_STAGE_FRAGMENT, SHADER_STAGE_VERTEX, VERTEX_INPUT_RATE_VERTEX,
};

verus! {

/// The component layout of one vertex attribute.
#[derive(Debug, Copy, Clone, PartialEq, Eq, Structural)]
pub enum AttributeFormat {
    Vec2F,
    Vec3F,
    Vec4F,
}

impl AttributeFormat {
    /// Size of the attribute in bytes: four for each of its components.
    pub open spec fn spec_size(self) -> u32 {
        match self {
            AttributeFormat::Vec2F => 8,
            AttributeFormat::Vec3F => 12,
            AttributeFormat::Vec4F => 16,
        }
    }

    /// Size of the attribute in bytes.
    #[verifier::when_used_as_spec(spec_size)]
    pub fn size(self) -> (bytes: u32)
        ensures
            bytes == self.spec_size(),
    {
        match self {
            AttributeFormat::Vec2F => 4 * 2,
            AttributeFormat::Vec3F => 4 * 3,
            AttributeFormat::Vec4F => 4 * 4,
        }
    }

    /// The format code under which a device reads the attribute.
    pub open spec fn spec_as_raw(self) -> i32 {
        match self {
            AttributeFormat::Vec2F => FORMAT_R32G32_SFLOAT,
            AttributeFormat::Vec3F => FORMAT_R32G32B32_SFLOAT,
            AttributeFormat::Vec4F => FORMAT_R32G32B32A32_SFLOAT,
        }
    }

    /// The format code under which a device reads the attribute.
    #[verifier::when_used_as_spec(spec_as_raw)]
    pub fn as_raw(self) -> (code: i32)
        ensures
            code == self.spec_as_raw(),
    {
        match self {
            AttributeFormat::Vec2F => FORMAT_R32G32_SFLOAT,
            AttributeFormat::Vec3F => FORMAT_R32G32B32_SFLOAT,
            AttributeFormat::Vec4F => FORMAT_R32G32B32A32_SFLOAT,
        }
    }
}

impl From<AttributeFormat> for i32 {
    fn from(format: AttributeFormat) -> (code: i32) {
        format.as_raw()
    }
}

impl vstd::std_specs::convert::FromSpecImpl<AttributeFormat> for i32 {
    open spec fn obeys_from_spec() -> bool {
        true
    }

    /// The format code under which a device reads the attribute.
    open spec fn from_spec(format: AttributeFormat) -> i32 {
        format.spec_as_raw()
    }
}

/// One attribute of a vertex.
#[derive(Debug, Copy, Clone, PartialEq, Eq, Structural)]
pub struct AttributeDesc {
    pub format: AttributeFormat,
}

/// The attributes that one vertex buffer slot delivers, in the order in which
/// they lie in a vertex.
#[derive(Debug, Clone, PartialEq, Eq)]
pub struct ParameterDesc {
    pub attributes: Vec<AttributeDesc>,
}

/// Number of bytes that the attributes occupy when laid out back to back.
pub open spec fn packed_size(attributes: Seq<AttributeDesc>) -> nat
    decreases attributes.len(),
{
    if attributes.len() == 0 {
        0
    } else {
        packed_size(attributes.drop_last()) + attributes.last().format.spec_size() as nat
    }
}

/// The attribute lists of the parameters, one list for each parameter.
pub open spec fn attribute_lists(parameters: Seq<ParameterDesc>) -> Seq<Seq<AttributeDesc>> {
    Seq::new(parameters.len(), |i: int| parameters[i].attributes@)
}

/// Number of attributes in all the lists together.
pub open spec fn attribute_count(lists: Seq<Seq<AttributeDesc>>) -> nat
    decreases lists.len(),
{
    if lists.len() == 0 {
        0
    } else {
        attribute_count(lists.drop_last()) + lists.last().len()
    }
}

/// Whether every number of the flat vertex layout fits its 32-bit field.
pub open spec fn vertex_layout_fits(lists: Seq<Seq<AttributeDesc>>) -> bool {
    &&& lists.len() <= u32::MAX
    &&& attribute_count(lists) <= u32::MAX
    &&& forall|i: int| 0 <= i < lists.len() ==> packed_size(#[trigger] lists[i]) <= u32::MAX
}

/// The vertex buffer slot of the attribute list at `index`: its stride is the
/// packed size of the attributes, and it advances once per vertex.
pub open spec fn binding_of(lists: Seq<Seq<AttributeDesc>>, index: int)
    -> VertexInputBindingDescription {
    VertexInputBindingDescription {
        binding: index as u32,
        stride: packed_size(lists[index]) as u32,
        input_rate: VERTEX_INPUT_RATE_VERTEX,
    }
}

/// The flat vertex buffer slots of the attribute lists: one slot each, in
/// order.
pub open spec fn raw_bindings(lists: Seq<Seq<AttributeDesc>>) -> Seq<VertexInputBindingDescription> {
    Seq::new(lists.len(), |i: int| binding_of(lists, i))
}

/// The flat attributes of one list. The attribute at position `j` gets the
/// shader location `first_location + j` and starts where the attributes before
/// it end.
pub open spec fn raw_attributes_of(attributes: Seq<AttributeDesc>, binding: int, first_location: int)
    -> Seq<VertexInputAttributeDescription> {
    Seq::new(
        attributes.len(),
        |j: int|
            VertexInputAttributeDescription {
                location: (first_location + j) as u32,
                binding: binding as u32,
                format: attributes[j].format.spec_as_raw(),
                offset: packed_size(attributes.take(j)) as u32,
            },
    )
}

/// The flat attributes of all the lists. Shader locations count up through the
/// lists without a gap.
pub open spec fn raw_attributes(lists: Seq<Seq<AttributeDesc>>) -> Seq<
    VertexInputAttributeDescription,
>
    decreases lists.len(),
{
    if lists.len() == 0 {
        Seq::empty()
    } else {
        raw_attributes(lists.drop_last()) + raw_attributes_of(
            lists.last(),
            lists.len() - 1,
            attribute_count(lists.drop_last()) as int,
        )
    }
}

/// Taking one attribute more adds its size to the packed size.
pub proof fn lemma_packed_size_step(attributes: Seq<AttributeDesc>, j: int)
    requires
        0 <= j < attributes.len(),
    ensures
        packed_size(attributes.take(j + 1)) == packed_size(attributes.take(j))
            + attributes[j].format.spec_size(),
{
    assert(attributes.take(j + 1).drop_last() =~= attributes.take(j));
}

/// A prefix is packed into no more bytes than the whole.
pub proof fn lemma_packed_size_prefix(attributes: Seq<AttributeDesc>, j: int)
    requires
        0 <= j <= attributes.len(),
    ensures
        packed_size(attributes.take(j)) <= packed_size(attributes),
    decreases attributes.len() - j,
{
    if j == attributes.len() {
        assert(attributes.take(j) =~= attributes);
    } else {
        lemma_packed_size_step(attributes, j);
        lemma_packed_size_prefix(attributes, j + 1);
    }
}

/// Taking one list more adds its attributes to the count and to the flat
/// attributes.
pub proof fn lemma_attribute_count_step(lists: Seq<Seq<AttributeDesc>>, i: int)
    requires
        0 <= i < lists.len(),
    ensures
        attribute_count(lists.take(i + 1)) == attribute_count(lists.take(i)) + lists[i].len(),
        raw_attributes(lists.take(i + 1)) == raw_attributes(lists.take(i)) + raw_attributes_of(
            lists[i],
            i,
            attribute_count(lists.take(i)) as int,
        ),
{
    assert(lists.take(i + 1).drop_last() =~= lists.take(i));
}

/// A prefix of the lists holds no more attributes than all of them.
pub proof fn lemma_attribute_count_prefix(lists: Seq<Seq<AttributeDesc>>, i: int)
    requires
        0 <= i <= lists.len(),
    ensures
        attribute_count(lists.take(i)) <= attribute_count(lists),
    decreases lists.len() - i,
{
    if i == lists.len() {
        assert(lists.take(i) =~= lists);
    } else {
        lemma_attribute_count_step(lists, i);
        lemma_attribute_count_prefix(lists, i + 1);
    }
}

/// The flat attribute table has one entry for each attribute.
pub proof fn lemma_raw_attributes_len(lists: Seq<Seq<AttributeDesc>>)
    ensures
        raw_attributes(lists).len() == attribute_count(lists),
    decreases lists.len(),
{
    if lists.len() > 0 {
        lemma_raw_attributes_len(lists.drop_last());
    }
}

/// Every attribute ends within the stride of its vertex buffer slot.
pub proof fn lemma_attribute_within_stride(attributes: Seq<AttributeDesc>, j: int)
    requires
        0 <= j < attributes.len(),
    ensures
        packed_size(attributes.take(j)) + attributes[j].format.spec_size() <= packed_size(
            attributes,
        ),
{
    lemma_packed_size_step(attributes, j);
    lemma_packed_size_prefix(attributes, j + 1);
}

/// The shader location of every flat attribute is its position in the table:
/// locations start at zero and have no gap.
pub proof fn lemma_locations_are_positions(lists: Seq<Seq<AttributeDesc>>, position: int)
    requires
        vertex_layout_fits(lists),
        0 <= position < attribute_count(lists),
    ensures
        position < raw_attributes(lists).len(),
        raw_attributes(lists)[position].location == position,
    decreases lists.len(),
{
    lemma_raw_attributes_len(lists);
    if lists.len() > 0 {
        let front = lists.drop_last();
        lemma_raw_attributes_len(front);
        if position < attribute_count(front) {
            assert(front =~= lists.take(lists.len() - 1));
            lemma_attribute_count_prefix(lists, lists.len() - 1);
            assert forall|i: int| 0 <= i < front.len() implies packed_size(#[trigger] front[i])
                <= u32::MAX by {
                assert(front[i] == lists[i]);
            }
            lemma_locations_are_positions(front, position);
        }
    }
}

/// Whether the flat vertex layout of the parameters can be built: whether
/// every number of it fits its 32-bit field.
pub fn check_vertex_layout(parameters: &[ParameterDesc]) -> (fits: bool)
    ensures
        fits == vertex_layout_fits(attribute_lists(parameters@)),
{
    let count: usize = parameters.len();
    if count > 0xFFFF_FFFF {
        return false;
    }
    let ghost lists = attribute_lists(parameters@);
    let mut total: u64 = 0;
    let mut i: usize = 0;
    while i < count
        invariant
            count == parameters@.len(),
            count <= u32::MAX,
            lists == attribute_lists(parameters@),
            0 <= i <= count,
            total == attribute_count(lists.take(i as int)),
            total <= u32::MAX,
            forall|k: int| 0 <= k < i ==> packed_size(#[trigger] lists[k]) <= u32::MAX,
        decreases count - i,
    {
        let attributes = &parameters[i].attributes;
        let ghost formats = attributes@;
        let width: usize = attributes.len();
        proof {
            assert(lists[i as int] == formats);
            lemma_attribute_count_step(lists, i as int);
            lemma_attribute_count_prefix(lists, i as int + 1);
            assert(formats.take(0) =~= Seq::<AttributeDesc>::empty());
        }
        if width as u64 > 0xFFFF_FFFF - total {
            return false;
        }
        total = total + width as u64;
        let mut size: u64 = 0;
        let mut j: usize = 0;
        while j < width
            invariant
                width == formats.len(),
                formats == attributes@,
                lists == attribute_lists(parameters@),
                0 <= i < lists.len(),
                lists[i as int] == formats,
                0 <= j <= width,
                size == packed_size(formats.take(j as int)),
                size <= u32::MAX,
            decreases width - j,
        {
            proof {
                lemma_packed_size_step(formats, j as int);
                lemma_packed_size_prefix(formats, j as int + 1);
            }
            size = size + attributes[j].format.size() as u64;
            if size > 0xFFFF_FFFF {
                assert(packed_size(lists[i as int]) > u32::MAX);
                return false;
            }
            j += 1;
        }
        assert(formats.take(width as int) =~= formats);
        i += 1;
    }
    assert(lists.take(count as int) =~= lists);
    true
}

/// Lowers vertex parameters to the flat tables of vertex buffer slots and
/// vertex attributes.
pub fn parameter_descs_to_raw(parameters: &[ParameterDesc]) -> (raw: (
    Vec<VertexInputBindingDescription>,
    Vec<VertexInputAttributeDescription>,
))
    requires
        vertex_layout_fits(attribute_lists(parameters@)),
    ensures
        raw.0@ == raw_bindings(attribute_lists(parameters@)),
        raw.1@ == raw_attributes(attribute_lists(parameters@)),
{
    let mut bindings: Vec<VertexInputBindingDescription> = Vec::new();
    let mut attributes: Vec<VertexInputAttributeDescription> = Vec::new();
    let mut location: u32 = 0;
    let count: usize = parameters.len();
    let ghost lists = attribute_lists(parameters@);
    let mut i: usize = 0;
    while i < count
        invariant
            count == parameters@.len(),
            lists == attribute_lists(parameters@),
            0 <= i <= count,
            vertex_layout_fits(lists),
            bindings@ == raw_bindings(lists.take(i as int)),
            attributes@ == raw_attributes(lists.take(i as int)),
            location == attribute_count(lists.take(i as int)),
        decreases count - i,
    {
        let parameter = &parameters[i];
        let ghost formats = parameter.attributes@;
        let ghost before = attributes@;
        let ghost first = location as int;
        let width: usize = parameter.attributes.len();
        proof {
            assert(lists[i as int] == formats);
            lemma_attribute_count_step(lists, i as int);
            lemma_attribute_count_prefix(lists, i as int + 1);
            assert(formats.take(0) =~= Seq::<AttributeDesc>::empty());
        }
        let mut offset: u32 = 0;
        let mut j: usize = 0;
        while j < width
            invariant
                width == formats.len(),
                0 <= j <= width,
                i < count,
                count <= u32::MAX,
                packed_size(formats) <= u32::MAX,
                first + formats.len() <= u32::MAX,
                location == first + j,
                offset == packed_size(formats.take(j as int)),
                formats == parameter.attributes@,
                attributes@ == before + raw_attributes_of(formats, i as int, first).take(j as int),
            decreases width - j,
        {
            let attribute = &parameter.attributes[j];
            proof {
                lemma_packed_size_step(formats, j as int);
                lemma_packed_size_prefix(formats, j as int + 1);
            }
            attributes.push(
                VertexInputAttributeDescription {
                    location,
                    binding: i as u32,
                    format: attribute.format.as_raw(),
                    offset,
                },
            );
            assert(attributes@ =~= before + raw_attributes_of(formats, i as int, first).take(
                j as int + 1,
            ));
            location += 1;
            offset += attribute.format.size();
            j += 1;
        }
        proof {
            assert(formats.take(width as int) =~= formats);
            assert(raw_attributes_of(formats, i as int, first).take(width as int)
                =~= raw_attributes_of(formats, i as int, first));
        }
        bindings.push(
            VertexInputBindingDescription {
                binding: i as u32,
                stride: offset,
                input_rate: VERTEX_INPUT_RATE_VERTEX,
            },
        );
        assert(bindings@ =~= raw_bindings(lists.take(i as int + 1)));
        i += 1;
    }
    assert(lists.take(count as int) =~= lists);
    (bindings, attributes)
}

/// A type whose values are the vertices of one vertex buffer slot.
pub trait Parameter {
    /// The attributes of one vertex, in the order in which they lie in it.
    spec fn spec_attributes() -> Seq<AttributeDesc>;

    /// The attributes of one vertex, in the order in which they lie in it.
    fn attributes() -> (descs: Vec<AttributeDesc>)
        ensures
            descs@ == Self::spec_attributes(),
    ;
}

impl<A, B> Parameter for (A, B) where A: Parameter, B: Parameter {
    /// The attributes of the first part, then those of the second.
    open spec fn spec_attributes() -> Seq<AttributeDesc> {
        A::spec_attributes() + B::spec_attributes()
    }

    fn attributes() -> (descs: Vec<AttributeDesc>) {
        let mut buf = A::attributes();
        let mut b = B::attributes();
        buf.append(&mut b);
        buf
    }
}

impl Parameter for Vec2 {
    open spec fn spec_attributes() -> Seq<AttributeDesc> {
        seq![AttributeDesc { format: AttributeFormat::Vec2F }]
    }

    fn attributes() -> (descs: Vec<AttributeDesc>) {
        let mut descs = Vec::new();
        descs.push(AttributeDesc { format: AttributeFormat::Vec2F });
        assert(descs@ =~= Self::spec_attributes());
        descs
    }
}

impl Parameter for Vec3 {
    open spec fn spec_attributes() -> Seq<AttributeDesc> {
        seq![AttributeDesc { format: AttributeFormat::Vec3F }]
    }

    fn attributes() -> (descs: Vec<AttributeDesc>) {
        let mut descs = Vec::new();
        descs.push(AttributeDesc { format: AttributeFormat::Vec3F });
        assert(descs@ =~= Self::spec_attributes());
        descs
    }
}

impl Parameter for Vec4 {
    open spec fn spec_attributes() -> Seq<AttributeDesc> {
        seq![AttributeDesc { format: AttributeFormat::Vec4F }]
    }

    fn attributes() -> (descs: Vec<AttributeDesc>) {
        let mut descs = Vec::new();
        descs.push(AttributeDesc { format: AttributeFormat::Vec4F });
        assert(descs@ =~= Self::spec_attributes());
        descs
    }
}

/// A tuple of vertex types, one for each vertex buffer slot of a pipeline.
pub trait Parameters {
    /// The attribute list of each slot, in the order of the slots.
    spec fn spec_parameters() -> Seq<Seq<AttributeDesc>>;

    /// The description of each slot, in the order of the slots.
    fn parameters() -> (descs: Vec<ParameterDesc>)
        ensures
            attribute_lists(descs@) == Self::spec_parameters(),
    ;
}

impl<A> Parameters for (A,) where A: Parameter {
    open spec fn spec_parameters() -> Seq<Seq<AttributeDesc>> {
        seq![A::spec_attributes()]
    }

    fn parameters() -> (descs: Vec<ParameterDesc>) {
        let mut descs = Vec::new();
        descs.push(ParameterDesc { attributes: A::attributes() });
        assert(attribute_lists(descs@) =~= Self::spec_parameters());
        descs
    }
}

impl<A, B> Parameters for (A, B) where A: Parameter, B: Parameter {
    open spec fn spec_parameters() -> Seq<Seq<AttributeDesc>> {
        seq![A::spec_attributes(), B::spec_attributes()]
    }

    fn parameters() -> (descs: Vec<ParameterDesc>) {
        let mut descs = Vec::new();
        descs.push(ParameterDesc { attributes: A::attributes() });
        descs.push(ParameterDesc { attributes: B::attributes() });
        assert(attribute_lists(descs@) =~= Self::spec_parameters());
        descs
    }
}

impl<A, B, C> Parameters for (A, B, C) where A: Parameter, B: Parameter, C: Parameter {
    open spec fn spec_parameters() -> Seq<Seq<AttributeDesc>> {
        seq![A::spec_attributes(), B::spec_attributes(), C::spec_attributes()]
    }

    fn parameters() -> (descs: Vec<ParameterDesc>) {
        let mut descs = Vec::new();
        descs.push(ParameterDesc { attributes: A::attributes() });
        descs.push(ParameterDesc { attributes: B::attributes() });
        descs.push(ParameterDesc { attributes: C::attributes() });
        assert(attribute_lists(descs@) =~= Self::spec_parameters());
        descs
    }
}

/// The kind of resource that a shader binding refers to.
#[derive(Debug, Copy, Clone, PartialEq, Eq, Structural)]
pub enum BindingType {
    Uniform,
    SampledImage,
}

impl BindingType {
    /// The descriptor type code of the binding.
    pub open spec fn spec_as_raw(self) -> i32 {
        match self {
            BindingType::Uniform => DESCRIPTOR_TYPE_UNIFORM_BUFFER,
            BindingType::SampledImage => DESCRIPTOR_TYPE_COMBINED_IMAGE_SAMPLER,
        }
    }

    /// The descriptor type code of the binding.
    #[verifier::when_used_as_spec(spec_as_raw)]
    pub fn as_raw(self) -> (code: i32)
        ensures
            code == self.spec_as_raw(),
    {
        match self {
            BindingType::Uniform => DESCRIPTOR_TYPE_UNIFORM_BUFFER,
            BindingType::SampledImage => DESCRIPTOR_TYPE_COMBINED_IMAGE_SAMPLER,
        }
    }
}

impl From<BindingType> for i32 {
    fn from(binding_type: BindingType) -> (code: i32) {
        binding_type.as_raw()
    }
}

impl vstd::std_specs::convert::FromSpecImpl<BindingType> for i32 {
    open spec fn obeys_from_spec() -> bool {
        true
    }

    /// The descriptor type code of the binding.
    open spec fn from_spec(binding_type: BindingType) -> i32 {
        binding_type.spec_as_raw()
    }
}

/// One binding of a pipeline: the kind of resource and how many of them.
#[derive(Debug, Copy, Clone, PartialEq, Eq, Structural)]
pub struct BindingDesc {
    pub binding_type: BindingType,
    pub count: u32,
}

/// The shader stages that see every binding: vertex and fragment.
pub open spec fn binding_stages() -> u32 {
    SHADER_STAGE_VERTEX | SHADER_STAGE_FRAGMENT
}

/// The flat layout slots of the bindings: the binding at position `i` becomes
/// slot `i`, visible to the vertex and the fragment stage.
pub open spec fn raw_layout_bindings(bindings: Seq<BindingDesc>) -> Seq<DescriptorSetLayoutBinding> {
    Seq::new(
        bindings.len(),
        |i: int|
            DescriptorSetLayoutBinding {
                binding: i as u32,
                descriptor_type: bindings[i].binding_type.spec_as_raw(),
                descriptor_count: bindings[i].count,
                stage_flags: binding_stages(),
            },
    )
}

/// Lowers shader bindings to the flat slots of a descriptor set layout.
pub fn bindings_descs_to_raw(bindings: &[BindingDesc]) -> (raw: Vec<DescriptorSetLayoutBinding>)
    requires
        bindings@.len() <= u32::MAX,
    ensures
        raw@ == raw_layout_bindings(bindings@),
{
    let mut raw_bindings: Vec<DescriptorSetLayoutBinding> = Vec::new();
    let count: usize = bindings.len();
    let mut i: usize = 0;
    while i < count
        invariant
            count == bindings@.len(),
            count <= u32::MAX,
            0 <= i <= count,
            raw_bindings@ == raw_layout_bindings(bindings@.take(i as int)),
        decreases count - i,
    {
        let binding = &bindings[i];
        raw_bindings.push(
            DescriptorSetLayoutBinding {
                binding: i as u32,
                descriptor_type: binding.binding_type.as_raw(),
                descriptor_count: binding.count,
                stage_flags: SHADER_STAGE_VERTEX | SHADER_STAGE_FRAGMENT,
            },
        );
        assert(raw_bindings@ =~= raw_layout_bindings(bindings@.take(i as int + 1)));
        i += 1;
    }
    assert(bindings@.take(count as int) =~= bindings@);
    raw_bindings
}

/// Number of descriptor sets that a pipeline's descriptor pool can hand out.
pub const MAX_SETS: u32 = 1024;

/// Number of descriptors that the pool holds for each binding of the pipeline.
pub const PER_BINDING: u32 = 128;

/// The sizes of a pipeline's descriptor pool: `PER_BINDING` descriptors for
/// each binding, of the binding's type. A pool must have a size, so a pipeline
/// without bindings gets a pool of one uniform buffer descriptor.
pub open spec fn pool_sizes(bindings: Seq<BindingDesc>) -> Seq<DescriptorPoolSize> {
    if bindings.len() == 0 {
        seq![DescriptorPoolSize { ty: DESCRIPTOR_TYPE_UNIFORM_BUFFER, descriptor_count: 1 }]
    } else {
        Seq::new(
            bindings.len(),
            |i: int|
                DescriptorPoolSize {
                    ty: bindings[i].binding_type.spec_as_raw(),
                    descriptor_count: PER_BINDING,
                },
        )
    }
}

/// The sizes to create the descriptor pool of a pipeline with.
pub fn descriptor_pool_sizes(bindings: &[BindingDesc]) -> (sizes: Vec<DescriptorPoolSize>)
    ensures
        sizes@ == pool_sizes(bindings@),
        sizes@.len() > 0,
{
    let mut sizes: Vec<DescriptorPoolSize> = Vec::new();
    let count: usize = bindings.len();
    let mut i: usize = 0;
    while i < count
        invariant
            count == bindings@.len(),
            0 <= i <= count,
            sizes@.len() == i,
            forall|k: int|
                0 <= k < i ==> sizes@[k] == (DescriptorPoolSize {
                    ty: bindings@[k].binding_type.spec_as_raw(),
                    descriptor_count: PER_BINDING,
                }),
        decreases count - i,
    {
        sizes.push(
            DescriptorPoolSize { ty: bindings[i].binding_type.as_raw(), descriptor_count: PER_BINDING },
        );
        i += 1;
    }
    if sizes.len() == 0 {
        sizes.push(DescriptorPoolSize { ty: DESCRIPTOR_TYPE_UNIFORM_BUFFER, descriptor_count: 1 });
    }
    assert(sizes@ =~= pool_sizes(bindings@));
    sizes
}

/// A uniform buffer to write into a binding.
pub struct WriteUniformArgument<'a> {
    pub buffer: UntypedBuffer<'a, UniformBufferUsage>,
}

/// A sampler and an image view to write into a binding, with the layout that
/// the image is in.
#[derive(Debug, Copy, Clone, PartialEq, Eq, Structural)]
pub struct WriteSampledImageArgument {
    pub sampler: u64,
    pub image_view: u64,
    pub image_layout: i32,
}

/// A resource to write into one binding of a descriptor set.
pub enum WriteArgument<'a> {
    Uniform(WriteUniformArgument<'a>),
    SampledImage(WriteSampledImageArgument),
}

impl<'a> WriteArgument<'a> {
    /// The kind of binding that the resource can be written into.
    pub open spec fn binding_type(&self) -> BindingType {
        match *self {
            WriteArgument::Uniform(_) => BindingType::Uniform,
            WriteArgument::SampledImage(_) => BindingType::SampledImage,
        }
    }

    /// The descriptor type code of the write.
    pub fn descriptor_type(&self) -> (code: i32)
        ensures
            code == self.binding_type().spec_as_raw(),
    {
        match *self {
            WriteArgument::Uniform(_) => DESCRIPTOR_TYPE_UNIFORM_BUFFER,
            WriteArgument::SampledImage(_) => DESCRIPTOR_TYPE_COMBINED_IMAGE_SAMPLER,
        }
    }
}

/// A resource that can be bound to one binding of a pipeline.
pub trait Argument {
    /// The write that puts the resource into a binding.
    spec fn spec_as_write(&self) -> WriteArgument<'_>;

    /// The write that puts the resource into a binding.
    fn as_write(&self) -> (write: WriteArgument<'_>)
        ensures
            write == self.spec_as_write(),
    ;
}

impl<T> Argument for Buffer<UniformBufferUsage, T> where T: Copy {
    open spec fn spec_as_write(&self) -> WriteArgument<'_> {
        WriteArgument::Uniform(
            WriteUniformArgument {
                buffer: UntypedBuffer {
                    buffer: self.buffer,
                    size: self.size,
                    marker: core::marker::PhantomData,
                },
            },
        )
    }

    fn as_write(&self) -> (write: WriteArgument<'_>) {
        WriteArgument::Uniform(WriteUniformArgument { buffer: self.as_untyped() })
    }
}

impl<F> Argument for SampledImage<F> where F: FormatType {
    open spec fn spec_as_write(&self) -> WriteArgument<'_> {
        WriteArgument::SampledImage(
            WriteSampledImageArgument {
                sampler: self.sampler.sampler,
                image_view: self.image_view.image_view,
                image_layout: self.image.layout,
            },
        )
    }

    fn as_write(&self) -> (write: WriteArgument<'_>) {
        WriteArgument::SampledImage(
            WriteSampledImageArgument {
                sampler: self.sampler.sampler,
                image_view: self.image_view.image_view,
                image_layout: self.image.layout,
            },
        )
    }
}

/// A tuple of resources, one for each binding of a pipeline.
pub trait Arguments {
    /// The writes of the resources, in the order of the bindings.
    spec fn spec_as_writes(&self) -> Seq<WriteArgument<'_>>;

    /// The writes of the resources, in the order of the bindings.
    fn as_writes(&self) -> (writes: Vec<WriteArgument<'_>>)
        ensures
            writes@ == self.spec_as_writes(),
    ;
}

impl Arguments for () {
    open spec fn spec_as_writes(&self) -> Seq<WriteArgument<'_>> {
        Seq::empty()
    }

    fn as_writes(&self) -> (writes: Vec<WriteArgument<'_>>) {
        let writes = Vec::new();
        assert(writes@ =~= self.spec_as_writes());
        writes
    }
}

impl<A> Arguments for (A,) where A: Argument {
    open spec fn spec_as_writes(&self) -> Seq<WriteArgument<'_>> {
        seq![self.0.spec_as_write()]
    }

    fn as_writes(&self) -> (writes: Vec<WriteArgument<'_>>) {
        let mut writes = Vec::new();
        writes.push(self.0.as_write());
        assert(writes@ =~= self.spec_as_writes());
        writes
    }
}

impl<A, B> Arguments for (A, B) where A: Argument, B: Argument {
    open spec fn spec_as_writes(&self) -> Seq<WriteArgument<'_>> {
        seq![self.0.spec_as_write(), self.1.spec_as_write()]
    }

    fn as_writes(&self) -> (writes: Vec<WriteArgument<'_>>) {
        let mut writes = Vec::new();
        writes.push(self.0.as_write());
        writes.push(self.1.as_write());
        assert(writes@ =~= self.spec_as_writes());
        writes
    }
}

impl<A, B, C> Arguments for (A, B, C) where A: Argument, B: Argument, C: Argument {
    open spec fn spec_as_writes(&self) -> Seq<WriteArgument<'_>> {
        seq![self.0.spec_as_write(), self.1.spec_as_write(), self.2.spec_as_write()]
    }

    fn as_writes(&self) -> (writes: Vec<WriteArgument<'_>>) {
        let mut writes = Vec::new();
        writes.push(self.0.as_write());
        writes.push(self.1.as_write());
        writes.push(self.2.as_write());
        assert(writes@ =~= self.spec_as_writes());
        writes
    }
}

/// A type that stands for one binding of a pipeline.
pub trait Binding {
    /// The resource that is bound to the binding.
    type Argument: Argument;

    /// The kind of the binding and the number of its descriptors.
    spec fn spec_description() -> BindingDesc;

    /// The kind of the binding and the number of its descriptors.
    fn description() -> (desc: BindingDesc)
        ensures
            desc == Self::spec_description(),
    ;

    /// The write of every argument is of the binding's kind.
    proof fn argument_fits(argument: &Self::Argument)
        ensures
            argument.spec_as_write().binding_type() == Self::spec_description().binding_type,
    ;
}

impl<F: FormatType> Binding for SampledImage<F> {
    type Argument = Self;

    open spec fn spec_description() -> BindingDesc {
        BindingDesc { binding_type: BindingType::SampledImage, count: 1 }
    }

    fn description() -> (desc: BindingDesc) {
        BindingDesc { binding_type: BindingType::SampledImage, count: 1 }
    }

    proof fn argument_fits(argument: &Self::Argument) {
    }
}

impl Binding for Vec3 {
    type Argument = Buffer<UniformBufferUsage, Vec3>;

    open spec fn spec_description() -> BindingDesc {
        BindingDesc { binding_type: BindingType::Uniform, count: 1 }
    }

    fn description() -> (desc: BindingDesc) {
        BindingDesc { binding_type: BindingType::Uniform, count: 1 }
    }

    proof fn argument_fits(argument: &Self::Argument) {
        let b: Buffer<UniformBufferUsage, Vec3> = *argument;
        assert(b.spec_as_write() is Uniform);
    }
}

impl Binding for Mat4 {
    type Argument = Buffer<UniformBufferUsage, Mat4>;

    open spec fn spec_description() -> BindingDesc {
        BindingDesc { binding_type: BindingType::Uniform, count: 1 }
    }

    fn description() -> (desc: BindingDesc) {
        BindingDesc { binding_type: BindingType::Uniform, count: 1 }
    }

    proof fn argument_fits(argument: &Self::Argument) {
        let b: Buffer<UniformBufferUsage, Mat4> = *argument;
        assert(b.spec_as_write() is Uniform);
    }
}

impl Binding for Mvp {
    type Argument = Buffer<UniformBufferUsage, Mvp>;

    open spec fn spec_description() -> BindingDesc {
        BindingDesc { binding_type: BindingType::Uniform, count: 1 }
    }

    fn description() -> (desc: BindingDesc) {
        BindingDesc { binding_type: BindingType::Uniform, count: 1 }
    }

    proof fn argument_fits(argument: &Self::Argument) {
        let b: Buffer<UniformBufferUsage, Mvp> = *argument;
        assert(b.spec_as_write() is Uniform);
    }
}

/// Whether there is one write for each binding, each of its binding's kind.
pub open spec fn writes_fit(writes: Seq<WriteArgument<'_>>, bindings: Seq<BindingDesc>) -> bool {
    &&& writes.len() == bindings.len()
    &&& forall|i: int|
        0 <= i < writes.len() ==> (#[trigger] writes[i]).binding_type() == bindings[i].binding_type
}

/// A tuple of types that stands for the bindings of a pipeline.
pub trait Bindings {
    /// The resources that are bound to the bindings.
    type Arguments: Arguments;

    /// The descriptions of the bindings, in order.
    spec fn spec_descriptions() -> Seq<BindingDesc>;

    /// The descriptions of the bindings, in order.
    fn descriptions() -> (descs: Vec<BindingDesc>)
        ensures
            descs@ == Self::spec_descriptions(),
    ;

    /// The writes of every tuple of arguments fit the bindings.
    proof fn arguments_fit(arguments: &Self::Arguments)
        ensures
            writes_fit(arguments.spec_as_writes(), Self::spec_descriptions()),
    ;
}

impl Bindings for () {
    type Arguments = ();

    open spec fn spec_descriptions() -> Seq<BindingDesc> {
        Seq::empty()
    }

    fn descriptions() -> (descs: Vec<BindingDesc>) {
        let descs = Vec::new();
        assert(descs@ =~= Self::spec_descriptions());
        descs
    }

    proof fn arguments_fit(arguments: &Self::Arguments) {
    }
}

impl<A> Bindings for (A,) where A: Binding {
    type Arguments = (A::Argument,);

    open spec fn spec_descriptions() -> Seq<BindingDesc> {
        seq![A::spec_description()]
    }

    fn descriptions() -> (descs: Vec<BindingDesc>) {
        let mut descs = Vec::new();
        descs.push(A::description());
        assert(descs@ =~= Self::spec_descriptions());
        descs
    }

    proof fn arguments_fit(arguments: &Self::Arguments) {
        A::argument_fits(&arguments.0);
    }
}

impl<A, B> Bindings for (A, B) where A: Binding, B: Binding {
    type Arguments = (A::Argument, B::Argument);

    open spec fn spec_descriptions() -> Seq<BindingDesc> {
        seq![A::spec_description(), B::spec_description()]
    }

    fn descriptions() -> (descs: Vec<BindingDesc>) {
        let mut descs = Vec::new();
        descs.push(A::description());
        descs.push(B::description());
        assert(descs@ =~= Self::spec_descriptions());
        descs
    }

    proof fn arguments_fit(arguments: &Self::Arguments) {
        A::argument_fits(&arguments.0);
        B::argument_fits(&arguments.1);
    }
}

impl<A, B, C> Bindings for (A, B, C) where A: Binding, B: Binding, C: Binding {
    type Arguments = (A::Argument, B::Argument, C::Argument);

    open spec fn spec_descriptions() -> Seq<BindingDesc> {
        seq![A::spec_description(), B::spec_description(), C::spec_description()]
    }

    fn descriptions() -> (descs: Vec<BindingDesc>) {
        let mut descs = Vec::new();
        descs.push(A::description());
        descs.push(B::description());
        descs.push(C::description());
        assert(descs@ =~= Self::spec_descriptions());
        descs
    }

    proof fn arguments_fit(arguments: &Self::Arguments) {
        A::argument_fits(&arguments.0);
        B::argument_fits(&arguments.1);
        C::argument_fits(&arguments.2);
    }
}

/// What one write puts into its binding: the list that the write refers to.
pub enum WriteBacking {
    Buffer(Vec<DescriptorBufferInfo>),
    Image(Vec<DescriptorImageInfo>),
}

/// The flat writes that put `writes` into the descriptor set `set`: the write
/// at position `i` goes to binding `i`, element 0, and writes one descriptor.
pub open spec fn raw_writes(set: u64, writes: Seq<WriteArgument<'_>>) -> Seq<WriteDescriptorSet> {
    Seq::new(
        writes.len(),
        |i: int|
            WriteDescriptorSet {
                dst_set: set,
                dst_binding: i as u32,
                dst_array_element: 0,
                descriptor_count: 1,
                descriptor_type: writes[i].binding_type().spec_as_raw(),
            },
    )
}

/// Whether `backing` is what `write` puts into its binding: the whole of the
/// uniform buffer from its start, or the sampler with the image view in the
/// image's layout.
pub open spec fn is_backing_of(backing: WriteBacking, write: WriteArgument<'_>) -> bool {
    match write {
        WriteArgument::Uniform(uniform) => backing matches WriteBacking::Buffer(infos) && infos@
            == seq![
            DescriptorBufferInfo {
                buffer: uniform.buffer.buffer,
                offset: 0,
                range: uniform.buffer.size as u64,
            },
        ],
        WriteArgument::SampledImage(sampled) => backing matches WriteBacking::Image(infos) && infos@
            == seq![
            DescriptorImageInfo {
                sampler: sampled.sampler,
                image_view: sampled.image_view,
                image_layout: sampled.image_layout,
            },
        ],
    }
}

/// Writes that fit the bindings of a pipeline fill the slots of the
/// pipeline's descriptor set layout: the write at each position goes to the
/// slot at that position, and has the slot's descriptor type.
pub proof fn lemma_writes_fill_the_layout(
    set: u64,
    writes: Seq<WriteArgument<'_>>,
    bindings: Seq<BindingDesc>,
    i: int,
)
    requires
        writes_fit(writes, bindings),
        0 <= i < bindings.len(),
    ensures
        raw_writes(set, writes).len() == raw_layout_bindings(bindings).len(),
        raw_writes(set, writes)[i].dst_binding == raw_layout_bindings(bindings)[i].binding,
        raw_writes(set, writes)[i].descriptor_type == raw_layout_bindings(
            bindings,
        )[i].descriptor_type,
{
    assert(writes[i].binding_type() == bindings[i].binding_type);
}

/// Lowers the resources of a descriptor set to flat writes. The second list
/// holds, at the position of each write, what that write refers to.
pub fn writes_to_raw(set: u64, writes: &[WriteArgument<'_>]) -> (raw: (
    Vec<WriteDescriptorSet>,
    Vec<WriteBacking>,
))
    requires
        writes@.len() <= u32::MAX,
    ensures
        raw.0@ == raw_writes(set, writes@),
        raw.1@.len() == writes@.len(),
        forall|i: int| 0 <= i < writes@.len() ==> is_backing_of(#[trigger] raw.1@[i], writes@[i]),
{
    let mut raw: Vec<WriteDescriptorSet> = Vec::new();
    let mut backing: Vec<WriteBacking> = Vec::new();
    let count: usize = writes.len();
    let mut i: usize = 0;
    while i < count
        invariant
            count == writes@.len(),
            count <= u32::MAX,
            0 <= i <= count,
            raw@ == raw_writes(set, writes@.take(i as int)),
            backing@.len() == i,
            forall|k: int| 0 <= k < i ==> is_backing_of(#[trigger] backing@[k], writes@[k]),
        decreases count - i,
    {
        let write = &writes[i];
        let ghost earlier = backing@;
        match write {
            WriteArgument::Uniform(uniform) => {
                let mut infos: Vec<DescriptorBufferInfo> = Vec::new();
                infos.push(
                    DescriptorBufferInfo {
                        buffer: uniform.buffer.buffer,
                        offset: 0,
                        range: uniform.buffer.size as u64,
                    },
                );
                assert(infos@ =~= seq![
                    DescriptorBufferInfo {
                        buffer: uniform.buffer.buffer,
                        offset: 0,
                        range: uniform.buffer.size as u64,
                    },
                ]);
                backing.push(WriteBacking::Buffer(infos));
            },
            WriteArgument::SampledImage(sampled) => {
                let mut infos: Vec<DescriptorImageInfo> = Vec::new();
                infos.push(
                    DescriptorImageInfo {
                        sampler: sampled.sampler,
                        image_view: sampled.image_view,
                        image_layout: sampled.image_layout,
                    },
                );
                assert(infos@ =~= seq![
                    DescriptorImageInfo {
                        sampler: sampled.sampler,
                        image_view: sampled.image_view,
                        image_layout: sampled.image_layout,
                    },
                ]);
                backing.push(WriteBacking::Image(infos));
            },
        }
        assert(forall|k: int| 0 <= k < i ==> backing@[k] == earlier[k]);
        raw.push(
            WriteDescriptorSet {
                dst_set: set,
                dst_binding: i as u32,
                dst_array_element: 0,
                descriptor_count: 1,
                descriptor_type: write.descriptor_type(),
            },
        );
        assert(raw@ =~= raw_writes(set, writes@.take(i as int + 1)));
        i += 1;
    }
    assert(writes@.take(count as int) =~= writes@);
    (raw, backing)
}

/// The blending that every colour attachment of a pipeline gets: what is drawn
/// is weighted by its alpha and laid over what is there, and all four
/// channels are written.
pub open spec fn alpha_blend_state() -> PipelineColorBlendAttachmentState {
    PipelineColorBlendAttachmentState {
        blend_enable: true,
        src_color_blend_factor: BLEND_FACTOR_SRC_ALPHA,
        dst_color_blend_factor: BLEND_FACTOR_ONE_MINUS_SRC_ALPHA,
        color_blend_op: BLEND_OP_ADD,
        src_alpha_blend_factor: BLEND_FACTOR_ONE,
        dst_alpha_blend_factor: BLEND_FACTOR_ZERO,
        alpha_blend_op: BLEND_OP_ADD,
        color_write_mask: COLOR_COMPONENT_ALL,
    }
}

/// The blend states of a pipeline that draws to `amount` colour attachments.
pub fn blend_states(amount: usize) -> (states: Vec<PipelineColorBlendAttachmentState>)
    ensures
        states@ == Seq::new(amount as nat, |i: int| alpha_blend_state()),
{
    let mut states: Vec<PipelineColorBlendAttachmentState> = Vec::new();
    let mut i: usize = 0;
    while i < amount
        invariant
            0 <= i <= amount,
            states@ == Seq::new(i as nat, |k: int| alpha_blend_state()),
        decreases amount - i,
    {
        states.push(
            PipelineColorBlendAttachmentState {
                blend_enable: true,
                src_color_blend_factor: BLEND_FACTOR_SRC_ALPHA,
                dst_color_blend_factor: BLEND_FACTOR_ONE_MINUS_SRC_ALPHA,
                color_blend_op: BLEND_OP_ADD,
                src_alpha_blend_factor: BLEND_FACTOR_ONE,
                dst_alpha_blend_factor: BLEND_FACTOR_ZERO,
                alpha_blend_op: BLEND_OP_ADD,
                color_write_mask: COLOR_COMPONENT_ALL,
            },
        );
        assert(states@ =~= Seq::new((i + 1) as nat, |k: int| alpha_blend_state()));
        i += 1;
    }
    states
}

/// The blend states of a pipeline that draws in the render pass `G`: one for
/// each colour attachment of the pass.
pub fn create_blend_states<G: RenderPassPrototype>() -> (states: Vec<
    PipelineColorBlendAttachmentState,
>)
    requires
        <G::ColorAttachments as ColorAttachments<G::SampleCount>>::valid(),
    ensures
        states@ == Seq::new(
            <G::ColorAttachments as ColorAttachments<G::SampleCount>>::spec_desc().len(),
            |i: int| alpha_blend_state(),
        ),
{
    let amount = <G::ColorAttachments as ColorAttachments<G::SampleCount>>::desc().len();
    blend_states(amount)
}

/// The multisample state of a pipeline that draws in the render pass `G`: the
/// sample count of the pass, and nothing else switched on.
pub fn create_multisample_state<G: RenderPassPrototype>() -> (state:
    PipelineMultisampleStateCreateInfo)
    ensures
        state == (PipelineMultisampleStateCreateInfo {
            rasterization_samples: G::SampleCount::spec_as_raw(),
            sample_shading_enable: false,
            alpha_to_coverage_enable: false,
            alpha_to_one_enable: false,
        }),
{
    PipelineMultisampleStateCreateInfo {
        rasterization_samples: G::SampleCount::as_raw(),
        sample_shading_enable: false,
        alpha_to_coverage_enable: false,
        alpha_to_one_enable: false,
    }
}

/// The signature of a pipeline, as types: the render pass it draws in, the
/// vertices it takes, and the resources it binds.
pub trait FunctionPrototype {
    type RenderPass: RenderPassPrototype;

    type VertexInput: Parameter;

    type Bindings: Bindings;
}

/// The shaders of a pipeline with the signature `F`, as SPIR-V words.
pub struct FunctionImpl<F: FunctionPrototype> {
    pub vert: Vec<u32>,
    pub frag: Vec<u32>,
    /// Ties the shaders to their signature.
    pub marker: PhantomData<F>,
}

impl<F> FunctionImpl<F> where F: FunctionPrototype {
    /// The shaders as given. Nothing checks that they have the signature `F`.
    pub fn from_raw(vert: Vec<u32>, frag: Vec<u32>) -> (made: Self)
        ensures
            made.vert == vert,
            made.frag == frag,
    {
        Self { vert, frag, marker: PhantomData }
    }
}

/// All the tables that a device needs to build the pipeline of a signature.
pub struct PipelineDesc {
    pub vertex_bindings: Vec<VertexInputBindingDescription>,
    pub vertex_attributes: Vec<VertexInputAttributeDescription>,
    pub max_sets: u32,
    pub pool_sizes: Vec<DescriptorPoolSize>,
    pub descriptor_bindings: Vec<DescriptorSetLayoutBinding>,
    pub color_blend_states: Vec<PipelineColorBlendAttachmentState>,
    pub logic_op_enable: bool,
    pub blend_constants: Vec4,
    pub multisample_state: PipelineMultisampleStateCreateInfo,
    pub subpass: u32,
}

/// Whether the tables of the signature `F` can be built: the attachment types
/// of its render pass stand for attachments, and its numbers fit in 32 bits.
pub open spec fn prototype_fits<F: FunctionPrototype>() -> bool {
    &&& vertex_layout_fits(seq![F::VertexInput::spec_attributes()])
    &&& F::Bindings::spec_descriptions().len() <= u32::MAX
    &&& <<F::RenderPass as RenderPassPrototype>::ColorAttachments as ColorAttachments<
        <F::RenderPass as RenderPassPrototype>::SampleCount,
    >>::valid()
}

/// Whether the tables of the signature `F` can be built.
pub fn check_function<F: FunctionPrototype>() -> (ok: bool)
    ensures
        ok == prototype_fits::<F>(),
{
    let mut parameters: Vec<ParameterDesc> = Vec::new();
    parameters.push(ParameterDesc { attributes: F::VertexInput::attributes() });
    assert(attribute_lists(parameters@) =~= seq![F::VertexInput::spec_attributes()]);
    if !check_vertex_layout(parameters.as_slice()) {
        return false;
    }
    if F::Bindings::descriptions().len() > 0xFFFF_FFFF {
        return false;
    }
    <<F::RenderPass as RenderPassPrototype>::ColorAttachments as ColorAttachments<
        <F::RenderPass as RenderPassPrototype>::SampleCount,
    >>::check()
}

/// A pipeline on the device with the signature `F`, and what belongs to it.
pub struct FunctionDef<F: FunctionPrototype> {
    /// Handle of the pool that the pipeline's descriptor sets come from.
    pub descriptor_pool: u64,
    /// Handle of the layout of the pipeline's descriptor sets.
    pub descriptor_set_layout: u64,
    /// Handle of the pipeline.
    pub pipeline: u64,
    /// Handle of the pipeline's layout.
    pub pipeline_layout: u64,
    /// Ties the pipeline to its signature.
    pub marker: PhantomData<F>,
}

impl<F> FunctionDef<F> where F: FunctionPrototype {
    /// The tables to build the pipeline of `F` from: one vertex buffer slot
    /// with the attributes of the vertex type, a descriptor pool and a
    /// descriptor set layout for the bindings, alpha blending on every colour
    /// attachment of the render pass with blend constants of one, the sample
    /// count of the render pass, and the first subpass.
    pub fn desc() -> (desc: PipelineDesc)
        requires
            prototype_fits::<F>(),
        ensures
            desc.vertex_bindings@ == raw_bindings(seq![F::VertexInput::spec_attributes()]),
            desc.vertex_attributes@ == raw_attributes(seq![F::VertexInput::spec_attributes()]),
            desc.max_sets == MAX_SETS,
            desc.pool_sizes@ == pool_sizes(F::Bindings::spec_descriptions()),
            desc.descriptor_bindings@ == raw_layout_bindings(F::Bindings::spec_descriptions()),
            desc.color_blend_states@ == Seq::new(
                <<F::RenderPass as RenderPassPrototype>::ColorAttachments as ColorAttachments<
                    <F::RenderPass as RenderPassPrototype>::SampleCount,
                >>::spec_desc().len(),
                |i: int| alpha_blend_state(),
            ),
            desc.logic_op_enable == false,
            desc.blend_constants == (Vec4 {
                x: Scalar { bits: ONE_BITS },
                y: Scalar { bits: ONE_BITS },
                z: Scalar { bits: ONE_BITS },
                w: Scalar { bits: ONE_BITS },
            }),
            desc.multisample_state == (PipelineMultisampleStateCreateInfo {
                rasterization_samples: <F::RenderPass as RenderPassPrototype>::SampleCount::spec_as_raw(),
                sample_shading_enable: false,
                alpha_to_coverage_enable: false,
                alpha_to_one_enable: false,
            }),
            desc.subpass == 0,
    {
        let mut parameters: Vec<ParameterDesc> = Vec::new();
        parameters.push(ParameterDesc { attributes: F::VertexInput::attributes() });
        assert(attribute_lists(parameters@) =~= seq![F::VertexInput::spec_attributes()]);
        let (vertex_bindings, vertex_attributes) = parameter_descs_to_raw(parameters.as_slice());
        let bindings = F::Bindings::descriptions();
        let pool_sizes = descriptor_pool_sizes(bindings.as_slice());
        let descriptor_bindings = bindings_descs_to_raw(bindings.as_slice());
        let color_blend_states = create_blend_states::<F::RenderPass>();
        let multisample_state = create_multisample_state::<F::RenderPass>();
        let one = Scalar { bits: ONE_BITS };
        PipelineDesc {
            vertex_bindings,
            vertex_attributes,
            max_sets: MAX_SETS,
            pool_sizes,
            descriptor_bindings,
            color_blend_states,
            logic_op_enable: false,
            blend_constants: Vec4 { x: one, y: one, z: one, w: one },
            multisample_state,
            subpass: 0,
        }
    }

    /// Describes the pipeline that the device has built from `desc()`.
    pub fn create(
        descriptor_pool: u64,
        descriptor_set_layout: u64,
        pipeline: u64,
        pipeline_layout: u64,
    ) -> (made: Self)
        ensures
            made.descriptor_pool == descriptor_pool,
            made.descriptor_set_layout == descriptor_set_layout,
            made.pipeline == pipeline,
            made.pipeline_layout == pipeline_layout,
    {
        Self {
            descriptor_pool,
            descriptor_set_layout,
            pipeline,
            pipeline_layout,
            marker: PhantomData,
        }
    }

    /// Binds `arguments` to the descriptor set `descriptor_set`, which the
    /// device has allocated for this pipeline: returns the arguments with
    /// their descriptor set, and the writes that fill the set, with what each
    /// write refers to. There is one write for each binding of `F`, of the
    /// binding's descriptor type.
    pub fn make_arguments(
        &self,
        descriptor_set: u64,
        arguments: <F::Bindings as Bindings>::Arguments,
    ) -> (made: (ArgumentsContainer<F>, Vec<WriteDescriptorSet>, Vec<WriteBacking>))
        requires
            F::Bindings::spec_descriptions().len() <= u32::MAX,
        ensures
            made.0.arguments == arguments,
            made.0.descriptor_set == descriptor_set,
            made.1@ == raw_writes(descriptor_set, arguments.spec_as_writes()),
            made.1@.len() == F::Bindings::spec_descriptions().len(),
            forall|i: int|
                0 <= i < made.1@.len() ==> (#[trigger] made.1@[i]).descriptor_type
                    == F::Bindings::spec_descriptions()[i].binding_type.spec_as_raw(),
            made.2@.len() == made.1@.len(),
            forall|i: int|
                0 <= i < made.2@.len() ==> is_backing_of(
                    #[trigger] made.2@[i],
                    arguments.spec_as_writes()[i],
                ),
    {
        proof {
            F::Bindings::arguments_fit(&arguments);
        }
        let (raw, backing) = {
            let writes = arguments.as_writes();
            writes_to_raw(descriptor_set, writes.as_slice())
        };
        (ArgumentsContainer { arguments, descriptor_set }, raw, backing)
    }
}

/// The resources bound to a pipeline with the signature `F`, and the
/// descriptor set that holds them.
pub struct ArgumentsContainer<F: FunctionPrototype> {
    pub arguments: <F::Bindings as Bindings>::Arguments,
    /// Handle of the descriptor set.
    pub descriptor_set: u64,
}

} // verus!
