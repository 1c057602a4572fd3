//! Render passes: their attachments as types, and their flat description.

use core::marker::PhantomData;
use vstd::prelude::*;
use crate::image::format::FormatType;
use crate::image::samples::{MultiSampleCountType, SampleCount1, SampleCountType};
use crate::image::usage::{
    ColorAttachment as ColorAttachmentUsage, DepthStencilAttachment, DynImageUsage,
    ImageUsageType,
};
use crate::image::{Image, ImageView};
use crate::math::{Scalar, Vec4};
use crate::raw::{
    Attachment, AttachmentRef, ClearAttachment, ClearColorValue, ClearDepthStencilValue,
    ClearValue, Dependency, Extent2D, ImageLayoutTransition, Subpass, SubpassColorAttachment,
    ACCESS_DEPTH_STENCIL_ATTACHMENT_READ, ACCESS_DEPTH_STENCIL_ATTACHMENT_WRITE,
    ACCESS_MEMORY_READ, ATTACHMENT_LOAD_OP_DONT_CARE, ATTACHMENT_LOAD_OP_LOAD,
    ATTACHMENT_STORE_OP_DONT_CARE, ATTACHMENT_STORE_OP_STORE, ATTACHMENT_UNUSED,
    IMAGE_ASPECT_COLOR, IMAGE_ASPECT_DEPTH, IMAGE_LAYOUT_COLOR_ATTACHMENT_OPTIMAL,
    IMAGE_LAYOUT_DEPTH_STENCIL_ATTACHMENT_OPTIMAL, IMAGE_LAYOUT_SHADER_READ_ONLY_OPTIMAL,
    IMAGE_LAYOUT_TRANSFER_SRC_OPTIMAL, IMAGE_LAYOUT_UNDEFINED,
    PIPELINE_STAGE_COLOR_ATTACHMENT_OUTPUT, PIPELINE_STAGE_EARLY_FRAGMENT_TESTS,
    PIPELINE_STAGE_TOP_OF_PIPE, SAMPLE_COUNT_1,
};

verus! {

/// The entries that a colour output takes: itself, then its resolve target if
/// it has one.
pub open spec fn color_entries<T>(color: (T, Option<T>)) -> Seq<T> {
    match color.1 {
        Some(resolve) => seq![color.0, resolve],
        None => seq![color.0],
    }
}

/// The colour outputs laid out in a row, each followed by its resolve target
/// if it has one.
pub open spec fn flat_colors<T>(colors: Seq<(T, Option<T>)>) -> Seq<T>
    decreases colors.len(),
{
    if colors.len() == 0 {
        Seq::empty()
    } else {
        flat_colors(colors.drop_last()) + color_entries(colors.last())
    }
}

/// What there is for each attachment of a render pass, in the order of the
/// attachments: the inputs first, then the colour outputs with their resolve
/// targets, then the depth attachment if there is one.
pub open spec fn flat_attachments<T>(
    inputs: Seq<T>,
    colors: Seq<(T, Option<T>)>,
    depth: Option<T>,
) -> Seq<T> {
    inputs + flat_colors(colors) + match depth {
        Some(d) => seq![d],
        None => Seq::empty(),
    }
}

/// The position among the attachments of the colour output `k`.
pub open spec fn color_position<T>(inputs: Seq<T>, colors: Seq<(T, Option<T>)>, k: int) -> nat {
    inputs.len() + flat_colors(colors.take(k)).len()
}

/// The use of input `i` by the subpass: read by shaders.
pub open spec fn input_ref(i: int) -> AttachmentRef {
    AttachmentRef { attachment: i as u32, layout: IMAGE_LAYOUT_SHADER_READ_ONLY_OPTIMAL }
}

/// The use of colour output `k` by the subpass. Its resolve target, if it has
/// one, is the attachment right behind it.
pub open spec fn color_ref(
    inputs: Seq<Attachment>,
    colors: Seq<(Attachment, Option<Attachment>)>,
    k: int,
) -> SubpassColorAttachment {
    let position = color_position(inputs, colors, k);
    SubpassColorAttachment {
        color: AttachmentRef {
            attachment: position as u32,
            layout: IMAGE_LAYOUT_COLOR_ATTACHMENT_OPTIMAL,
        },
        resolve: if colors[k].1 is Some {
            Some(
                AttachmentRef {
                    attachment: (position + 1) as u32,
                    layout: IMAGE_LAYOUT_COLOR_ATTACHMENT_OPTIMAL,
                },
            )
        } else {
            None
        },
    }
}

/// The use of the depth attachment by the subpass: it is the last attachment.
pub open spec fn depth_ref(
    inputs: Seq<Attachment>,
    colors: Seq<(Attachment, Option<Attachment>)>,
    depth: Option<Attachment>,
) -> Option<AttachmentRef> {
    if depth is Some {
        Some(
            AttachmentRef {
                attachment: (inputs.len() + flat_colors(colors).len()) as u32,
                layout: IMAGE_LAYOUT_DEPTH_STENCIL_ATTACHMENT_OPTIMAL,
            },
        )
    } else {
        None
    }
}

/// Taking one colour output more adds its entries to the row.
pub proof fn lemma_flat_colors_step<T>(colors: Seq<(T, Option<T>)>, k: int)
    requires
        0 <= k < colors.len(),
    ensures
        flat_colors(colors.take(k + 1)) == flat_colors(colors.take(k)) + color_entries(colors[k]),
        flat_colors(colors.take(k + 1)).len() == flat_colors(colors.take(k)).len() + if colors[k].1
            is Some {
            2int
        } else {
            1int
        },
{
    assert(colors.take(k + 1).drop_last() =~= colors.take(k));
}

/// A prefix of the colour outputs takes no more entries than all of them, and
/// the outputs take at most two entries each.
pub proof fn lemma_flat_colors_prefix<T>(colors: Seq<(T, Option<T>)>, k: int)
    requires
        0 <= k <= colors.len(),
    ensures
        flat_colors(colors.take(k)).len() <= flat_colors(colors).len(),
        k <= flat_colors(colors.take(k)).len() <= 2 * k,
    decreases colors.len() - k,
{
    lemma_flat_colors_bounds(colors.take(k));
    if k == colors.len() {
        assert(colors.take(k) =~= colors);
    } else {
        lemma_flat_colors_step(colors, k);
        lemma_flat_colors_prefix(colors, k + 1);
    }
}

/// Colour outputs take at least one and at most two entries each.
pub proof fn lemma_flat_colors_bounds<T>(colors: Seq<(T, Option<T>)>)
    ensures
        colors.len() <= flat_colors(colors).len() <= 2 * colors.len(),
    decreases colors.len(),
{
    if colors.len() > 0 {
        lemma_flat_colors_bounds(colors.drop_last());
    }
}

/// Whether the attachments of a render pass can be numbered in 32 bits.
pub open spec fn render_pass_fits(
    inputs: Seq<Attachment>,
    colors: Seq<(Attachment, Option<Attachment>)>,
    depth: Option<Attachment>,
) -> bool {
    flat_attachments(inputs, colors, depth).len() <= u32::MAX
}

/// The flat description of a render pass with a single subpass that uses all
/// the attachments: the attachment table, the subpass, and no dependencies.
pub fn render_pass_desc(
    inputs: &[Attachment],
    colors: &[(Attachment, Option<Attachment>)],
    depth: Option<Attachment>,
) -> (desc: (Vec<Attachment>, Vec<Subpass>, Vec<Dependency>))
    requires
        render_pass_fits(inputs@, colors@, depth),
    ensures
        desc.0@ == flat_attachments(inputs@, colors@, depth),
        desc.1@.len() == 1,
        desc.1@[0].input_attachments@ == Seq::new(inputs@.len(), |i: int| input_ref(i)),
        desc.1@[0].color_attachments@ == Seq::new(
            colors@.len(),
            |k: int| color_ref(inputs@, colors@, k),
        ),
        desc.1@[0].depth_stencil_attachment == depth_ref(inputs@, colors@, depth),
        desc.2@.len() == 0,
{
    let mut attachments: Vec<Attachment> = Vec::new();
    let mut input_refs: Vec<AttachmentRef> = Vec::new();
    let mut color_refs: Vec<SubpassColorAttachment> = Vec::new();
    let mut depth_reference: Option<AttachmentRef> = None;
    let mut index: u32 = 0;

    let input_count: usize = inputs.len();
    let mut i: usize = 0;
    while i < input_count
        invariant
            input_count == inputs@.len(),
            input_count <= u32::MAX,
            0 <= i <= input_count,
            index == i,
            attachments@ == inputs@.take(i as int),
            input_refs@ == Seq::new(i as nat, |j: int| input_ref(j)),
        decreases input_count - i,
    {
        attachments.push(inputs[i]);
        input_refs.push(
            AttachmentRef { attachment: index, layout: IMAGE_LAYOUT_SHADER_READ_ONLY_OPTIMAL },
        );
        assert(attachments@ =~= inputs@.take(i as int + 1));
        assert(input_refs@ =~= Seq::new((i + 1) as nat, |j: int| input_ref(j)));
        index += 1;
        i += 1;
    }
    assert(inputs@.take(input_count as int) =~= inputs@);

    let color_count: usize = colors.len();
    let mut k: usize = 0;
    proof {
        assert(colors@.take(0) =~= Seq::<(Attachment, Option<Attachment>)>::empty());
        assert(attachments@ =~= inputs@ + flat_colors(colors@.take(0)));
    }
    while k < color_count
        invariant
            color_count == colors@.len(),
            0 <= k <= color_count,
            inputs@.len() + flat_colors(colors@).len() <= u32::MAX,
            index == inputs@.len() + flat_colors(colors@.take(k as int)).len(),
            attachments@ == inputs@ + flat_colors(colors@.take(k as int)),
            color_refs@ == Seq::new(k as nat, |j: int| color_ref(inputs@, colors@, j)),
        decreases color_count - k,
    {
        let (color, resolve) = colors[k];
        proof {
            lemma_flat_colors_step(colors@, k as int);
            lemma_flat_colors_prefix(colors@, k as int + 1);
        }
        let ghost before = attachments@;
        attachments.push(color);
        let color_reference = AttachmentRef {
            attachment: index,
            layout: IMAGE_LAYOUT_COLOR_ATTACHMENT_OPTIMAL,
        };
        let resolve_reference = match resolve {
            Some(resolve) => {
                attachments.push(resolve);
                index += 1;
                Some(
                    AttachmentRef { attachment: index, layout: IMAGE_LAYOUT_COLOR_ATTACHMENT_OPTIMAL },
                )
            },
            None => None,
        };
        color_refs.push(
            SubpassColorAttachment { color: color_reference, resolve: resolve_reference },
        );
        index += 1;
        assert(attachments@ =~= before + color_entries(colors@[k as int]));
        assert(attachments@ =~= inputs@ + flat_colors(colors@.take(k as int + 1)));
        assert(color_refs@ =~= Seq::new((k + 1) as nat, |j: int| color_ref(inputs@, colors@, j)));
        k += 1;
    }
    assert(colors@.take(color_count as int) =~= colors@);

    match depth {
        Some(depth) => {
            attachments.push(depth);
            depth_reference = Some(
                AttachmentRef {
                    attachment: index,
                    layout: IMAGE_LAYOUT_DEPTH_STENCIL_ATTACHMENT_OPTIMAL,
                },
            );
        },
        None => {},
    }
    assert(attachments@ =~= flat_attachments(inputs@, colors@, depth));

    let subpass = Subpass {
        input_attachments: input_refs,
        color_attachments: color_refs,
        depth_stencil_attachment: depth_reference,
    };
    let mut subpasses: Vec<Subpass> = Vec::new();
    subpasses.push(subpass);
    (attachments, subpasses, Vec::new())
}

/// A value that a colour attachment can be cleared to.
pub trait ColorClearValue {
    /// The clear colour that the value stands for.
    spec fn spec_as_raw(&self) -> ClearColorValue;

    /// The clear colour that the value stands for.
    fn as_raw(&self) -> (color: ClearColorValue)
        ensures
            color == self.spec_as_raw(),
    ;
}

impl ColorClearValue for Vec4 {
    /// The four components are red, green, blue and alpha.
    open spec fn spec_as_raw(&self) -> ClearColorValue {
        ClearColorValue {
            red: self.x.bits,
            green: self.y.bits,
            blue: self.z.bits,
            alpha: self.w.bits,
        }
    }

    fn as_raw(&self) -> (color: ClearColorValue) {
        ClearColorValue {
            red: self.x.bits,
            green: self.y.bits,
            blue: self.z.bits,
            alpha: self.w.bits,
        }
    }
}

/// A tuple of clear values, one for each colour attachment of a render pass.
pub trait ColorClearValues {
    /// The clear colours, in the order of the attachments.
    spec fn spec_as_raw(&self) -> Seq<ClearColorValue>;

    /// The clear colours, in the order of the attachments.
    fn as_raw(&self) -> (colors: Vec<ClearColorValue>)
        ensures
            colors@ == self.spec_as_raw(),
    ;
}

impl ColorClearValues for () {
    open spec fn spec_as_raw(&self) -> Seq<ClearColorValue> {
        Seq::empty()
    }

    fn as_raw(&self) -> (colors: Vec<ClearColorValue>) {
        let colors = Vec::new();
        assert(colors@ =~= Seq::<ClearColorValue>::empty());
        colors
    }
}

impl<A> ColorClearValues for (A,) where A: ColorClearValue {
    open spec fn spec_as_raw(&self) -> Seq<ClearColorValue> {
        seq![self.0.spec_as_raw()]
    }

    fn as_raw(&self) -> (colors: Vec<ClearColorValue>) {
        let mut colors = Vec::new();
        colors.push(self.0.as_raw());
        assert(colors@ =~= seq![self.0.spec_as_raw()]);
        colors
    }
}

impl<A, B> ColorClearValues for (A, B) where A: ColorClearValue, B: ColorClearValue {
    open spec fn spec_as_raw(&self) -> Seq<ClearColorValue> {
        seq![self.0.spec_as_raw(), self.1.spec_as_raw()]
    }

    fn as_raw(&self) -> (colors: Vec<ClearColorValue>) {
        let mut colors = Vec::new();
        colors.push(self.0.as_raw());
        colors.push(self.1.as_raw());
        assert(colors@ =~= seq![self.0.spec_as_raw(), self.1.spec_as_raw()]);
        colors
    }
}

/// A value that the depth attachment of a render pass can be cleared to.
pub trait DepthClearValue {
    /// The clear value, or none where there is nothing to clear.
    spec fn spec_as_raw(&self) -> Option<ClearDepthStencilValue>;

    /// The clear value, or none where there is nothing to clear.
    fn as_raw(&self) -> (value: Option<ClearDepthStencilValue>)
        ensures
            value == self.spec_as_raw(),
    ;
}

impl DepthClearValue for () {
    open spec fn spec_as_raw(&self) -> Option<ClearDepthStencilValue> {
        None
    }

    fn as_raw(&self) -> (value: Option<ClearDepthStencilValue>) {
        None
    }
}

impl DepthClearValue for Scalar {
    /// The depth is the number itself; the stencil value is zero.
    open spec fn spec_as_raw(&self) -> Option<ClearDepthStencilValue> {
        Some(ClearDepthStencilValue { depth: self.bits, stencil: 0 })
    }

    fn as_raw(&self) -> (value: Option<ClearDepthStencilValue>) {
        Some(ClearDepthStencilValue { depth: self.bits, stencil: 0 })
    }
}

/// An attachment whose contents are kept from before the pass and stored
/// after it, whose stencil contents do not matter, and which stays in the
/// layout `layout`.
pub open spec fn kept_attachment(format: i32, samples: u32, layout: i32) -> Attachment {
    Attachment {
        format,
        samples,
        load_op: ATTACHMENT_LOAD_OP_LOAD,
        store_op: ATTACHMENT_STORE_OP_STORE,
        stencil_load_op: ATTACHMENT_LOAD_OP_DONT_CARE,
        stencil_store_op: ATTACHMENT_STORE_OP_DONT_CARE,
        initial_layout: layout,
        final_layout: layout,
    }
}

/// The attachment that `kept_attachment` describes.
fn make_kept_attachment(format: i32, samples: u32, layout: i32) -> (attachment: Attachment)
    ensures
        attachment == kept_attachment(format, samples, layout),
{
    Attachment {
        format,
        samples,
        load_op: ATTACHMENT_LOAD_OP_LOAD,
        store_op: ATTACHMENT_STORE_OP_STORE,
        stencil_load_op: ATTACHMENT_LOAD_OP_DONT_CARE,
        stencil_store_op: ATTACHMENT_STORE_OP_DONT_CARE,
        initial_layout: layout,
        final_layout: layout,
    }
}

/// The transition that takes a new colour attachment into the layout in which
/// render passes find and leave it.
pub fn color_attachment_transition() -> (transition: ImageLayoutTransition)
    ensures
        transition == (ImageLayoutTransition {
            aspect: IMAGE_ASPECT_COLOR,
            src_stage_mask: PIPELINE_STAGE_TOP_OF_PIPE,
            dst_stage_mask: PIPELINE_STAGE_COLOR_ATTACHMENT_OUTPUT,
            src_access_mask: 0,
            dst_access_mask: ACCESS_MEMORY_READ,
            old_layout: IMAGE_LAYOUT_UNDEFINED,
            new_layout: IMAGE_LAYOUT_TRANSFER_SRC_OPTIMAL,
        }),
{
    ImageLayoutTransition {
        aspect: IMAGE_ASPECT_COLOR,
        src_stage_mask: PIPELINE_STAGE_TOP_OF_PIPE,
        dst_stage_mask: PIPELINE_STAGE_COLOR_ATTACHMENT_OUTPUT,
        src_access_mask: 0,
        dst_access_mask: ACCESS_MEMORY_READ,
        old_layout: IMAGE_LAYOUT_UNDEFINED,
        new_layout: IMAGE_LAYOUT_TRANSFER_SRC_OPTIMAL,
    }
}

/// The transition that takes a new depth attachment into the layout in which
/// render passes find and leave it.
pub fn depth_attachment_transition() -> (transition: ImageLayoutTransition)
    ensures
        transition == (ImageLayoutTransition {
            aspect: IMAGE_ASPECT_DEPTH,
            src_stage_mask: PIPELINE_STAGE_TOP_OF_PIPE,
            dst_stage_mask: PIPELINE_STAGE_EARLY_FRAGMENT_TESTS,
            src_access_mask: 0,
            dst_access_mask: ACCESS_DEPTH_STENCIL_ATTACHMENT_READ
                | ACCESS_DEPTH_STENCIL_ATTACHMENT_WRITE,
            old_layout: IMAGE_LAYOUT_UNDEFINED,
            new_layout: IMAGE_LAYOUT_DEPTH_STENCIL_ATTACHMENT_OPTIMAL,
        }),
{
    ImageLayoutTransition {
        aspect: IMAGE_ASPECT_DEPTH,
        src_stage_mask: PIPELINE_STAGE_TOP_OF_PIPE,
        dst_stage_mask: PIPELINE_STAGE_EARLY_FRAGMENT_TESTS,
        src_access_mask: 0,
        dst_access_mask: ACCESS_DEPTH_STENCIL_ATTACHMENT_READ
            | ACCESS_DEPTH_STENCIL_ATTACHMENT_WRITE,
        old_layout: IMAGE_LAYOUT_UNDEFINED,
        new_layout: IMAGE_LAYOUT_DEPTH_STENCIL_ATTACHMENT_OPTIMAL,
    }
}

/// Describes the image `image` and its view `view` for use as an attachment of
/// the kind `kind`: the image was created with the usages `usages` and those
/// of `kind`, and taken through `transition`.
fn attachment_parts<U, F, S>(
    image: u64,
    view: u64,
    usages: DynImageUsage,
    kind: U,
    extent: Extent2D,
    transition: &ImageLayoutTransition,
) -> (parts: (Image<U, F, S>, ImageView<U, F, S>)) where
    U: ImageUsageType,
    F: FormatType,
    S: SampleCountType,

    ensures
        parts.0.image == image,
        parts.0.layout == transition.new_layout,
        parts.0.extent == extent,
        parts.0.usage == usages.spec_union(kind.spec_as_dyn()),
        parts.0.usage.spec_contains(kind.spec_as_dyn()),
        parts.1.image_view == view,
        parts.1.usage == parts.0.usage,
{
    let mut untyped: Image<DynImageUsage, F, S> = Image::create(
        image,
        usages | kind.as_dyn(),
        extent,
    );
    untyped.transition(transition);
    proof {
        crate::image::usage::lemma_union_is_least_upper_bound(
            usages,
            kind.spec_as_dyn(),
            untyped.usage,
        );
    }
    match untyped.cast_usage(kind) {
        Ok(image) => {
            let view = ImageView::create(view, &image);
            (image, view)
        },
        Err(_) => vstd::pervasive::unreached(),
    }
}

/// The input attachments of a render pass, as a type.
pub trait InputAttachments: Sized {
    /// The descriptions of the attachments, in order.
    spec fn spec_desc() -> Seq<Attachment>;

    /// The image views that serve as the attachments, in order.
    spec fn spec_as_raw(&self) -> Seq<u64>;

    /// What the attachments are cleared to, in order.
    spec fn spec_clears(&self, color: Vec4, depth: Scalar) -> Seq<ClearValue>;

    /// The descriptions of the attachments, in order.
    fn desc() -> (descs: Vec<Attachment>)
        ensures
            descs@ == Self::spec_desc(),
    ;

    /// The image views that serve as the attachments, in order.
    fn as_raw(&self) -> (views: Vec<u64>)
        ensures
            views@ == self.spec_as_raw(),
    ;

    /// What the attachments are cleared to, in order.
    fn clears(&self, color: Vec4, depth: Scalar) -> (values: Vec<ClearValue>)
        ensures
            values@ == self.spec_clears(color, depth),
    ;

    /// There is one image view for each attachment.
    proof fn views_fit(&self)
        ensures
            self.spec_as_raw().len() == Self::spec_desc().len(),
    ;
}

impl InputAttachments for () {
    open spec fn spec_desc() -> Seq<Attachment> {
        Seq::empty()
    }

    open spec fn spec_as_raw(&self) -> Seq<u64> {
        Seq::empty()
    }

    open spec fn spec_clears(&self, color: Vec4, depth: Scalar) -> Seq<ClearValue> {
        Seq::empty()
    }

    fn desc() -> (descs: Vec<Attachment>) {
        let descs = Vec::new();
        assert(descs@ =~= Seq::<Attachment>::empty());
        descs
    }

    fn as_raw(&self) -> (views: Vec<u64>) {
        let views = Vec::new();
        assert(views@ =~= Seq::<u64>::empty());
        views
    }

    fn clears(&self, color: Vec4, depth: Scalar) -> (values: Vec<ClearValue>) {
        let values = Vec::new();
        assert(values@ =~= Seq::<ClearValue>::empty());
        values
    }

    proof fn views_fit(&self) {
    }
}

/// One colour attachment of a render pass with `S` samples, as a type.
pub trait ColorAttachmentType<S: SampleCountType>: Sized {
    /// What the attachment is cleared with.
    type ClearValue: ColorClearValue;

    /// Whether the type stands for a colour attachment at all: whether its
    /// format has colour.
    spec fn valid() -> bool;

    /// The description of the attachment and, if it is multisampled, of the
    /// attachment that its samples are resolved into.
    spec fn spec_desc() -> (Attachment, Option<Attachment>);

    /// The image view that serves as the attachment and, if it is
    /// multisampled, the one of its resolve target.
    spec fn spec_as_raw(&self) -> (u64, Option<u64>);

    /// Whether the type stands for a colour attachment.
    fn check() -> (ok: bool)
        ensures
            ok == Self::valid(),
    ;

    /// The description of the attachment and of its resolve target.
    fn desc() -> (descs: (Attachment, Option<Attachment>))
        requires
            Self::valid(),
        ensures
            descs == Self::spec_desc(),
    ;

    /// The image views of the attachment and of its resolve target.
    fn as_raw(&self) -> (views: (u64, Option<u64>))
        ensures
            views == self.spec_as_raw(),
    ;

    /// There is a view of a resolve target exactly if one is described.
    proof fn views_fit(&self)
        ensures
            self.spec_as_raw().1 is Some <==> Self::spec_desc().1 is Some,
    ;
}

/// A colour attachment with one sample per texel.
pub struct ColorAttachment<F: FormatType> {
    pub image: Image<ColorAttachmentUsage, F, SampleCount1>,
    pub view: ImageView<ColorAttachmentUsage, F, SampleCount1>,
}

impl<F> ColorAttachment<F> where F: FormatType {
    /// The two parts as given.
    pub fn new(
        image: Image<ColorAttachmentUsage, F, SampleCount1>,
        view: ImageView<ColorAttachmentUsage, F, SampleCount1>,
    ) -> (made: Self)
        ensures
            made.image == image,
            made.view == view,
    {
        Self { image, view }
    }

    /// Describes the attachment made of the image `image` and its view `view`,
    /// once the image was created with the usages `usages` and that of a
    /// colour attachment, and taken through `color_attachment_transition()`.
    pub fn create(image: u64, view: u64, usages: DynImageUsage, extent: Extent2D) -> (made: Self)
        ensures
            made.image.image == image,
            made.image.layout == IMAGE_LAYOUT_TRANSFER_SRC_OPTIMAL,
            made.image.extent == extent,
            made.image.usage == usages.spec_union(ColorAttachmentUsage.spec_as_dyn()),
            made.view.image_view == view,
            made.view.usage == made.image.usage,
    {
        let transition = color_attachment_transition();
        let (image, view) = attachment_parts(
            image,
            view,
            usages,
            ColorAttachmentUsage,
            extent,
            &transition,
        );
        Self::new(image, view)
    }
}

impl<F> ColorAttachmentType<SampleCount1> for ColorAttachment<F> where
    F: FormatType,
    F::Pixel: ColorClearValue,
 {
    type ClearValue = F::Pixel;

    open spec fn valid() -> bool {
        crate::image::format::aspect_contains(F::spec_aspect(), IMAGE_ASPECT_COLOR)
    }

    open spec fn spec_desc() -> (Attachment, Option<Attachment>) {
        (
            kept_attachment(F::spec_as_raw(), SAMPLE_COUNT_1, IMAGE_LAYOUT_TRANSFER_SRC_OPTIMAL),
            None,
        )
    }

    open spec fn spec_as_raw(&self) -> (u64, Option<u64>) {
        (self.view.image_view, None)
    }

    fn check() -> (ok: bool) {
        F::aspect() & IMAGE_ASPECT_COLOR == IMAGE_ASPECT_COLOR
    }

    fn desc() -> (descs: (Attachment, Option<Attachment>)) {
        (
            make_kept_attachment(F::as_raw(), SAMPLE_COUNT_1, IMAGE_LAYOUT_TRANSFER_SRC_OPTIMAL),
            None,
        )
    }

    fn as_raw(&self) -> (views: (u64, Option<u64>)) {
        (self.view.image_view, None)
    }

    proof fn views_fit(&self) {
    }
}

/// A colour attachment with several samples per texel, and the single-sampled
/// image that the samples are resolved into.
pub struct MultisampledColorAttachment<F: FormatType, S: MultiSampleCountType> {
    pub color_image: Image<ColorAttachmentUsage, F, S>,
    pub color_image_view: ImageView<ColorAttachmentUsage, F, S>,
    pub resolve_image: Image<ColorAttachmentUsage, F, SampleCount1>,
    pub resolve_image_view: ImageView<ColorAttachmentUsage, F, SampleCount1>,
}

impl<F, S> MultisampledColorAttachment<F, S> where F: FormatType, S: MultiSampleCountType {
    /// Describes the attachment made of the multisampled image `color_image`
    /// and the single-sampled image `resolve_image`, with their views, once
    /// each image was created with the usages `usages` and that of a colour
    /// attachment, and taken through `color_attachment_transition()`.
    pub fn create(
        color_image: u64,
        color_view: u64,
        resolve_image: u64,
        resolve_view: u64,
        usages: DynImageUsage,
        extent: Extent2D,
    ) -> (made: Self)
        ensures
            made.color_image.image == color_image,
            made.color_image.layout == IMAGE_LAYOUT_TRANSFER_SRC_OPTIMAL,
            made.color_image.extent == extent,
            made.color_image.usage == usages.spec_union(ColorAttachmentUsage.spec_as_dyn()),
            made.color_image_view.image_view == color_view,
            made.color_image_view.usage == made.color_image.usage,
            made.resolve_image.image == resolve_image,
            made.resolve_image.layout == IMAGE_LAYOUT_TRANSFER_SRC_OPTIMAL,
            made.resolve_image.extent == extent,
            made.resolve_image.usage == made.color_image.usage,
            made.resolve_image_view.image_view == resolve_view,
            made.resolve_image_view.usage == made.color_image.usage,
    {
        let transition = color_attachment_transition();
        let (color_image, color_image_view) = attachment_parts(
            color_image,
            color_view,
            usages,
            ColorAttachmentUsage,
            extent,
            &transition,
        );
        let (resolve_image, resolve_image_view) = attachment_parts(
            resolve_image,
            resolve_view,
            usages,
            ColorAttachmentUsage,
            extent,
            &transition,
        );
        Self { color_image, color_image_view, resolve_image, resolve_image_view }
    }
}

impl<F, S> ColorAttachmentType<S> for MultisampledColorAttachment<F, S> where
    F: FormatType,
    F::Pixel: ColorClearValue,
    S: MultiSampleCountType,
 {
    type ClearValue = F::Pixel;

    open spec fn valid() -> bool {
        crate::image::format::aspect_contains(F::spec_aspect(), IMAGE_ASPECT_COLOR)
    }

    open spec fn spec_desc() -> (Attachment, Option<Attachment>) {
        (
            kept_attachment(F::spec_as_raw(), S::spec_as_raw(), IMAGE_LAYOUT_TRANSFER_SRC_OPTIMAL),
            Some(
                kept_attachment(F::spec_as_raw(), SAMPLE_COUNT_1, IMAGE_LAYOUT_TRANSFER_SRC_OPTIMAL),
            ),
        )
    }

    open spec fn spec_as_raw(&self) -> (u64, Option<u64>) {
        (self.color_image_view.image_view, Some(self.resolve_image_view.image_view))
    }

    fn check() -> (ok: bool) {
        F::aspect() & IMAGE_ASPECT_COLOR == IMAGE_ASPECT_COLOR
    }

    fn desc() -> (descs: (Attachment, Option<Attachment>)) {
        (
            make_kept_attachment(F::as_raw(), S::as_raw(), IMAGE_LAYOUT_TRANSFER_SRC_OPTIMAL),
            Some(
                make_kept_attachment(F::as_raw(), SAMPLE_COUNT_1, IMAGE_LAYOUT_TRANSFER_SRC_OPTIMAL),
            ),
        )
    }

    fn as_raw(&self) -> (views: (u64, Option<u64>)) {
        (self.color_image_view.image_view, Some(self.resolve_image_view.image_view))
    }

    proof fn views_fit(&self) {
    }
}

/// Whether the two rows of colour outputs have a resolve target at the same
/// places.
pub open spec fn same_shape<T, V>(descs: Seq<(T, Option<T>)>, views: Seq<(V, Option<V>)>) -> bool {
    &&& descs.len() == views.len()
    &&& forall|k: int| 0 <= k < descs.len() ==> ((#[trigger] descs[k]).1 is Some <==> views[k].1 is Some)
}

/// The colour attachments of a render pass with `S` samples, as a type.
pub trait ColorAttachments<S: SampleCountType>: Sized {
    /// What the attachments are cleared with.
    type ClearValues: ColorClearValues;

    /// Whether each part of the type stands for a colour attachment.
    spec fn valid() -> bool;

    /// The descriptions of the attachments and of their resolve targets, in
    /// order.
    spec fn spec_desc() -> Seq<(Attachment, Option<Attachment>)>;

    /// The image views of the attachments and of their resolve targets, in
    /// order.
    spec fn spec_as_raw(&self) -> Seq<(u64, Option<u64>)>;

    /// Whether each part of the type stands for a colour attachment.
    fn check() -> (ok: bool)
        ensures
            ok == Self::valid(),
    ;

    /// The descriptions of the attachments and of their resolve targets.
    fn desc() -> (descs: Vec<(Attachment, Option<Attachment>)>)
        requires
            Self::valid(),
        ensures
            descs@ == Self::spec_desc(),
    ;

    /// The image views of the attachments and of their resolve targets.
    fn as_raw(&self) -> (views: Vec<(u64, Option<u64>)>)
        ensures
            views@ == self.spec_as_raw(),
    ;

    /// There are views for exactly what is described.
    proof fn views_fit(&self)
        ensures
            same_shape(Self::spec_desc(), self.spec_as_raw()),
    ;
}

impl<S: SampleCountType> ColorAttachments<S> for () {
    type ClearValues = ();

    open spec fn valid() -> bool {
        true
    }

    open spec fn spec_desc() -> Seq<(Attachment, Option<Attachment>)> {
        Seq::empty()
    }

    open spec fn spec_as_raw(&self) -> Seq<(u64, Option<u64>)> {
        Seq::empty()
    }

    fn check() -> (ok: bool) {
        true
    }

    fn desc() -> (descs: Vec<(Attachment, Option<Attachment>)>) {
        let descs = Vec::new();
        assert(descs@ =~= Seq::<(Attachment, Option<Attachment>)>::empty());
        descs
    }

    fn as_raw(&self) -> (views: Vec<(u64, Option<u64>)>) {
        let views = Vec::new();
        assert(views@ =~= Seq::<(u64, Option<u64>)>::empty());
        views
    }

    proof fn views_fit(&self) {
    }
}

impl<S, A> ColorAttachments<S> for (A,) where S: SampleCountType, A: ColorAttachmentType<S> {
    type ClearValues = (A::ClearValue,);

    open spec fn valid() -> bool {
        A::valid()
    }

    open spec fn spec_desc() -> Seq<(Attachment, Option<Attachment>)> {
        seq![A::spec_desc()]
    }

    open spec fn spec_as_raw(&self) -> Seq<(u64, Option<u64>)> {
        seq![self.0.spec_as_raw()]
    }

    fn check() -> (ok: bool) {
        A::check()
    }

    fn desc() -> (descs: Vec<(Attachment, Option<Attachment>)>) {
        let mut descs = Vec::new();
        descs.push(A::desc());
        assert(descs@ =~= seq![A::spec_desc()]);
        descs
    }

    fn as_raw(&self) -> (views: Vec<(u64, Option<u64>)>) {
        let mut views = Vec::new();
        views.push(self.0.as_raw());
        assert(views@ =~= seq![self.0.spec_as_raw()]);
        views
    }

    proof fn views_fit(&self) {
        self.0.views_fit();
    }
}

impl<S, A, B> ColorAttachments<S> for (A, B) where
    S: SampleCountType,
    A: ColorAttachmentType<S>,
    B: ColorAttachmentType<S>,
 {
    type ClearValues = (A::ClearValue, B::ClearValue);

    open spec fn valid() -> bool {
        A::valid() && B::valid()
    }

    open spec fn spec_desc() -> Seq<(Attachment, Option<Attachment>)> {
        seq![A::spec_desc(), B::spec_desc()]
    }

    open spec fn spec_as_raw(&self) -> Seq<(u64, Option<u64>)> {
        seq![self.0.spec_as_raw(), self.1.spec_as_raw()]
    }

    fn check() -> (ok: bool) {
        A::check() && B::check()
    }

    fn desc() -> (descs: Vec<(Attachment, Option<Attachment>)>) {
        let mut descs = Vec::new();
        descs.push(A::desc());
        descs.push(B::desc());
        assert(descs@ =~= seq![A::spec_desc(), B::spec_desc()]);
        descs
    }

    fn as_raw(&self) -> (views: Vec<(u64, Option<u64>)>) {
        let mut views = Vec::new();
        views.push(self.0.as_raw());
        views.push(self.1.as_raw());
        assert(views@ =~= seq![self.0.spec_as_raw(), self.1.spec_as_raw()]);
        views
    }

    proof fn views_fit(&self) {
        self.0.views_fit();
        self.1.views_fit();
    }
}

/// The depth attachment of a render pass with `S` samples, or its absence, as
/// a type.
pub trait DepthAttachmentType<S: SampleCountType>: Sized {
    /// What the attachment is cleared with.
    type ClearValue: DepthClearValue;

    /// Whether the type stands for a depth attachment or for none: whether
    /// its format, if it has one, has depth.
    spec fn valid() -> bool;

    /// The description of the attachment, if there is one.
    spec fn spec_desc() -> Option<Attachment>;

    /// The image view that serves as the attachment, if there is one.
    spec fn spec_as_raw(&self) -> Option<u64>;

    /// What the attachment is cleared to for the depth `depth`, if there is
    /// one.
    spec fn spec_clear(&self, depth: Scalar) -> Option<ClearValue>;

    /// Whether the type stands for a depth attachment or for none.
    fn check() -> (ok: bool)
        ensures
            ok == Self::valid(),
    ;

    /// The description of the attachment, if there is one.
    fn desc() -> (desc: Option<Attachment>)
        requires
            Self::valid(),
        ensures
            desc == Self::spec_desc(),
    ;

    /// The image view that serves as the attachment, if there is one.
    fn as_raw(&self) -> (view: Option<u64>)
        ensures
            view == self.spec_as_raw(),
    ;

    /// What the attachment is cleared to for the depth `depth`.
    fn clear(&self, depth: Scalar) -> (value: Option<ClearValue>)
        ensures
            value == self.spec_clear(depth),
    ;

    /// There is a view exactly if an attachment is described.
    proof fn views_fit(&self)
        ensures
            self.spec_as_raw() is Some <==> Self::spec_desc() is Some,
    ;
}

/// A render pass without a depth attachment.
pub struct NoDepthAttachment;

impl<S> DepthAttachmentType<S> for NoDepthAttachment where S: SampleCountType {
    type ClearValue = ();

    open spec fn valid() -> bool {
        true
    }

    open spec fn spec_desc() -> Option<Attachment> {
        None
    }

    open spec fn spec_as_raw(&self) -> Option<u64> {
        None
    }

    open spec fn spec_clear(&self, depth: Scalar) -> Option<ClearValue> {
        None
    }

    fn check() -> (ok: bool) {
        true
    }

    fn desc() -> (desc: Option<Attachment>) {
        None
    }

    fn as_raw(&self) -> (view: Option<u64>) {
        None
    }

    fn clear(&self, depth: Scalar) -> (value: Option<ClearValue>) {
        None
    }

    proof fn views_fit(&self) {
    }
}

/// The depth attachment of a render pass.
pub struct DepthAttachment<F: FormatType, S: SampleCountType> {
    pub image: Image<DepthStencilAttachment, F, S>,
    pub view: ImageView<DepthStencilAttachment, F, S>,
}

impl<F, S> DepthAttachment<F, S> where F: FormatType, S: SampleCountType {
    /// The two parts as given.
    pub fn new(
        image: Image<DepthStencilAttachment, F, S>,
        view: ImageView<DepthStencilAttachment, F, S>,
    ) -> (made: Self)
        ensures
            made.image == image,
            made.view == view,
    {
        Self { image, view }
    }

    /// Describes the attachment made of the image `image` and its view `view`,
    /// once the image was created with the usages `usages` and that of a
    /// depth attachment, and taken through `depth_attachment_transition()`.
    pub fn create(image: u64, view: u64, usages: DynImageUsage, extent: Extent2D) -> (made: Self)
        ensures
            made.image.image == image,
            made.image.layout == IMAGE_LAYOUT_DEPTH_STENCIL_ATTACHMENT_OPTIMAL,
            made.image.extent == extent,
            made.image.usage == usages.spec_union(DepthStencilAttachment.spec_as_dyn()),
            made.view.image_view == view,
            made.view.usage == made.image.usage,
    {
        let transition = depth_attachment_transition();
        let (image, view) = attachment_parts(
            image,
            view,
            usages,
            DepthStencilAttachment,
            extent,
            &transition,
        );
        Self::new(image, view)
    }
}

impl<F, S> DepthAttachmentType<S> for DepthAttachment<F, S> where
    F: FormatType,
    F::Pixel: DepthClearValue,
    S: SampleCountType,
 {
    type ClearValue = F::Pixel;

    open spec fn valid() -> bool {
        crate::image::format::aspect_contains(F::spec_aspect(), IMAGE_ASPECT_DEPTH)
    }

    open spec fn spec_desc() -> Option<Attachment> {
        Some(
            kept_attachment(
                F::spec_as_raw(),
                S::spec_as_raw(),
                IMAGE_LAYOUT_DEPTH_STENCIL_ATTACHMENT_OPTIMAL,
            ),
        )
    }

    open spec fn spec_as_raw(&self) -> Option<u64> {
        Some(self.view.image_view)
    }

    open spec fn spec_clear(&self, depth: Scalar) -> Option<ClearValue> {
        Some(ClearValue::DepthStencil(ClearDepthStencilValue { depth: depth.bits, stencil: 0 }))
    }

    fn check() -> (ok: bool) {
        F::aspect() & IMAGE_ASPECT_DEPTH == IMAGE_ASPECT_DEPTH
    }

    fn desc() -> (desc: Option<Attachment>) {
        Some(
            make_kept_attachment(
                F::as_raw(),
                S::as_raw(),
                IMAGE_LAYOUT_DEPTH_STENCIL_ATTACHMENT_OPTIMAL,
            ),
        )
    }

    fn as_raw(&self) -> (view: Option<u64>) {
        Some(self.view.image_view)
    }

    fn clear(&self, depth: Scalar) -> (value: Option<ClearValue>) {
        Some(ClearValue::DepthStencil(ClearDepthStencilValue { depth: depth.bits, stencil: 0 }))
    }

    proof fn views_fit(&self) {
    }
}

/// The attachments of a render pass, as types.
pub trait RenderPassPrototype {
    /// The number of samples of the colour and depth attachments.
    type SampleCount: SampleCountType;

    /// The attachments that the pass reads.
    type InputAttachments: InputAttachments;

    /// The attachments that the pass draws to.
    type ColorAttachments: ColorAttachments<Self::SampleCount>;

    /// The depth attachment of the pass, or `NoDepthAttachment`.
    type DepthAttachment: DepthAttachmentType<Self::SampleCount>;
}

/// A render pass on the device with the attachments of `G`.
pub struct RenderPass<G: RenderPassPrototype> {
    /// Handle of the device render pass.
    pub render_pass: u64,
    /// Ties the render pass to its attachments.
    pub marker: PhantomData<G>,
}

impl<G> RenderPass<G> where G: RenderPassPrototype {
    /// Describes the render pass `render_pass` that the device has created
    /// from `get_render_pass_desc::<G>()`.
    pub fn create(render_pass: u64) -> (made: Self)
        ensures
            made.render_pass == render_pass,
    {
        Self { render_pass, marker: PhantomData }
    }
}

/// Whether each attachment type of `G` stands for an attachment of its kind.
pub open spec fn prototype_valid<G: RenderPassPrototype>() -> bool {
    &&& <G::ColorAttachments as ColorAttachments<G::SampleCount>>::valid()
    &&& <G::DepthAttachment as DepthAttachmentType<G::SampleCount>>::valid()
}

/// Whether the render pass that `G` stands for can be described: whether each
/// attachment type of `G` stands for an attachment of its kind, and the
/// attachments can be numbered in 32 bits.
pub open spec fn prototype_describable<G: RenderPassPrototype>() -> bool {
    &&& prototype_valid::<G>()
    &&& render_pass_fits(
        G::InputAttachments::spec_desc(),
        <G::ColorAttachments as ColorAttachments<G::SampleCount>>::spec_desc(),
        <G::DepthAttachment as DepthAttachmentType<G::SampleCount>>::spec_desc(),
    )
}

/// Whether the render pass that `G` stands for can be described.
pub fn check_prototype<G: RenderPassPrototype>() -> (ok: bool)
    ensures
        ok == prototype_describable::<G>(),
{
    if !<G::ColorAttachments as ColorAttachments<G::SampleCount>>::check() {
        return false;
    }
    if !<G::DepthAttachment as DepthAttachmentType<G::SampleCount>>::check() {
        return false;
    }
    let inputs = G::InputAttachments::desc();
    let colors = <G::ColorAttachments as ColorAttachments<G::SampleCount>>::desc();
    let depth = <G::DepthAttachment as DepthAttachmentType<G::SampleCount>>::desc();
    check_render_pass(inputs.as_slice(), colors.as_slice(), &depth)
}

/// The flat description of the render pass that `G` stands for.
pub fn get_render_pass_desc<G: RenderPassPrototype>() -> (desc: (
    Vec<Attachment>,
    Vec<Subpass>,
    Vec<Dependency>,
))
    requires
        prototype_describable::<G>(),
    ensures
        ({
            let inputs = G::InputAttachments::spec_desc();
            let colors = <G::ColorAttachments as ColorAttachments<G::SampleCount>>::spec_desc();
            let depth = <G::DepthAttachment as DepthAttachmentType<G::SampleCount>>::spec_desc();
            &&& desc.0@ == flat_attachments(inputs, colors, depth)
            &&& desc.1@.len() == 1
            &&& desc.1@[0].input_attachments@ == Seq::new(inputs.len(), |i: int| input_ref(i))
            &&& desc.1@[0].color_attachments@ == Seq::new(
                colors.len(),
                |k: int| color_ref(inputs, colors, k),
            )
            &&& desc.1@[0].depth_stencil_attachment == depth_ref(inputs, colors, depth)
            &&& desc.2@.len() == 0
        }),
{
    let inputs = G::InputAttachments::desc();
    let colors = <G::ColorAttachments as ColorAttachments<G::SampleCount>>::desc();
    let depth = <G::DepthAttachment as DepthAttachmentType<G::SampleCount>>::desc();
    render_pass_desc(inputs.as_slice(), colors.as_slice(), depth)
}

/// The clearing of the attachments of a render pass that has `input_count`
/// input attachments: each colour attachment is cleared to its colour, under
/// its position among the inputs and colours; then the depth attachment, if
/// there is a value for it, under no position.
pub open spec fn raw_clears(
    input_count: nat,
    colors: Seq<ClearColorValue>,
    depth: Option<ClearDepthStencilValue>,
) -> Seq<ClearAttachment> {
    Seq::new(
        colors.len(),
        |i: int|
            ClearAttachment {
                aspect_mask: IMAGE_ASPECT_COLOR,
                color_attachment: (i + input_count) as u32,
                clear_value: ClearValue::Color(colors[i]),
            },
    ) + match depth {
        Some(depth_stencil) => seq![
            ClearAttachment {
                aspect_mask: IMAGE_ASPECT_DEPTH,
                color_attachment: ATTACHMENT_UNUSED,
                clear_value: ClearValue::DepthStencil(depth_stencil),
            },
        ],
        None => Seq::empty(),
    }
}

/// The clearing of the attachments of a render pass with `input_count` input
/// attachments.
pub fn clear_attachments(
    input_count: u32,
    colors: &[ClearColorValue],
    depth: Option<ClearDepthStencilValue>,
) -> (clears: Vec<ClearAttachment>)
    requires
        input_count + colors@.len() <= u32::MAX,
    ensures
        clears@ == raw_clears(input_count as nat, colors@, depth),
{
    let mut clears: Vec<ClearAttachment> = Vec::new();
    let count: usize = colors.len();
    let mut i: usize = 0;
    while i < count
        invariant
            count == colors@.len(),
            input_count + count <= u32::MAX,
            0 <= i <= count,
            clears@ == raw_clears(input_count as nat, colors@.take(i as int), None),
        decreases count - i,
    {
        let position: u32 = clears.len() as u32 + input_count;
        clears.push(
            ClearAttachment {
                aspect_mask: IMAGE_ASPECT_COLOR,
                color_attachment: position,
                clear_value: ClearValue::Color(colors[i]),
            },
        );
        assert(clears@ =~= raw_clears(input_count as nat, colors@.take(i as int + 1), None));
        i += 1;
    }
    assert(colors@.take(count as int) =~= colors@);
    match depth {
        Some(depth_stencil) => {
            clears.push(
                ClearAttachment {
                    aspect_mask: IMAGE_ASPECT_DEPTH,
                    color_attachment: ATTACHMENT_UNUSED,
                    clear_value: ClearValue::DepthStencil(depth_stencil),
                },
            );
        },
        None => {},
    }
    assert(clears@ =~= raw_clears(input_count as nat, colors@, depth));
    clears
}

/// The inputs, the colour outputs with their resolve targets and the depth
/// entry, in one row.
pub fn flatten_views(inputs: &[u64], colors: &[(u64, Option<u64>)], depth: Option<u64>) -> (views:
    Vec<u64>)
    ensures
        views@ == flat_attachments(inputs@, colors@, depth),
{
    let mut views: Vec<u64> = Vec::new();
    let input_count: usize = inputs.len();
    let mut i: usize = 0;
    while i < input_count
        invariant
            input_count == inputs@.len(),
            0 <= i <= input_count,
            views@ == inputs@.take(i as int),
        decreases input_count - i,
    {
        views.push(inputs[i]);
        assert(views@ =~= inputs@.take(i as int + 1));
        i += 1;
    }
    assert(inputs@.take(input_count as int) =~= inputs@);
    let color_count: usize = colors.len();
    let mut k: usize = 0;
    proof {
        assert(colors@.take(0) =~= Seq::<(u64, Option<u64>)>::empty());
        assert(views@ =~= inputs@ + flat_colors(colors@.take(0)));
    }
    while k < color_count
        invariant
            color_count == colors@.len(),
            0 <= k <= color_count,
            views@ == inputs@ + flat_colors(colors@.take(k as int)),
        decreases color_count - k,
    {
        let (color, resolve) = colors[k];
        proof {
            lemma_flat_colors_step(colors@, k as int);
        }
        let ghost before = views@;
        views.push(color);
        match resolve {
            Some(resolve) => {
                views.push(resolve);
            },
            None => {},
        }
        assert(views@ =~= before + color_entries(colors@[k as int]));
        assert(views@ =~= inputs@ + flat_colors(colors@.take(k as int + 1)));
        k += 1;
    }
    assert(colors@.take(color_count as int) =~= colors@);
    match depth {
        Some(depth) => {
            views.push(depth);
        },
        None => {},
    }
    assert(views@ =~= flat_attachments(inputs@, colors@, depth));
    views
}

/// The images that a render pass of `G` draws to, with their common extent.
pub struct Attachments<G: RenderPassPrototype> {
    pub extent: Extent2D,
    pub input_attachments: G::InputAttachments,
    pub color_attachments: G::ColorAttachments,
    pub depth_attachment: G::DepthAttachment,
}

impl<G> Attachments<G> where G: RenderPassPrototype {
    /// The attachments as given, all of the extent `extent`.
    pub fn create(
        extent: Extent2D,
        input_attachments: G::InputAttachments,
        color_attachments: G::ColorAttachments,
        depth_attachment: G::DepthAttachment,
    ) -> (made: Self)
        ensures
            made.extent == extent,
            made.input_attachments == input_attachments,
            made.color_attachments == color_attachments,
            made.depth_attachment == depth_attachment,
    {
        Self { extent, input_attachments, color_attachments, depth_attachment }
    }

    /// The extent of the attachments.
    pub fn extent(&self) -> (extent: Extent2D)
        ensures
            extent == self.extent,
    {
        self.extent
    }

    /// The attachments that the pass reads.
    pub fn input_attachments(&self) -> (inputs: &G::InputAttachments)
        ensures
            *inputs == self.input_attachments,
    {
        &self.input_attachments
    }

    /// The attachments that the pass draws to.
    pub fn color_attachments(&self) -> (colors: &G::ColorAttachments)
        ensures
            *colors == self.color_attachments,
    {
        &self.color_attachments
    }

    /// The depth attachment of the pass.
    pub fn depth_attachment(&self) -> (depth: &G::DepthAttachment)
        ensures
            *depth == self.depth_attachment,
    {
        &self.depth_attachment
    }

    /// The image views of all the attachments, in the order of the render
    /// pass's attachment table.
    pub open spec fn spec_as_raw(&self) -> Seq<u64> {
        flat_attachments(
            self.input_attachments.spec_as_raw(),
            self.color_attachments.spec_as_raw(),
            self.depth_attachment.spec_as_raw(),
        )
    }

    /// The image views of all the attachments, in the order of the render
    /// pass's attachment table.
    pub fn as_raw(&self) -> (views: Vec<u64>)
        ensures
            views@ == self.spec_as_raw(),
    {
        let inputs = self.input_attachments.as_raw();
        let colors = self.color_attachments.as_raw();
        let depth = self.depth_attachment.as_raw();
        flatten_views(inputs.as_slice(), colors.as_slice(), depth)
    }

    /// The clearing of the colour attachments to `colors` and of the depth
    /// attachment to `depth`.
    pub fn clears(
        &self,
        colors: <G::ColorAttachments as ColorAttachments<G::SampleCount>>::ClearValues,
        depth: <G::DepthAttachment as DepthAttachmentType<G::SampleCount>>::ClearValue,
    ) -> (clears: Vec<ClearAttachment>)
        requires
            G::InputAttachments::spec_desc().len() + colors.spec_as_raw().len() <= u32::MAX,
        ensures
            clears@ == raw_clears(
                G::InputAttachments::spec_desc().len(),
                colors.spec_as_raw(),
                depth.spec_as_raw(),
            ),
    {
        let input_count = G::InputAttachments::desc().len() as u32;
        let colors = colors.as_raw();
        clear_attachments(input_count, colors.as_slice(), depth.as_raw())
    }
}

/// The row of a prefix of the colour outputs is the start of the whole row.
pub proof fn lemma_flat_colors_take<T>(colors: Seq<(T, Option<T>)>, k: int)
    requires
        0 <= k <= colors.len(),
    ensures
        flat_colors(colors.take(k)).len() <= flat_colors(colors).len(),
        flat_colors(colors.take(k)) == flat_colors(colors).take(
            flat_colors(colors.take(k)).len() as int,
        ),
    decreases colors.len() - k,
{
    if k == colors.len() {
        assert(colors.take(k) =~= colors);
        assert(flat_colors(colors) =~= flat_colors(colors).take(flat_colors(colors).len() as int));
    } else {
        lemma_flat_colors_step(colors, k);
        lemma_flat_colors_take(colors, k + 1);
        let longer = flat_colors(colors.take(k + 1));
        let shorter = flat_colors(colors.take(k));
        assert(shorter =~= longer.take(shorter.len() as int));
        assert(shorter =~= flat_colors(colors).take(shorter.len() as int));
    }
}

/// Colour output `k` lies in the row where the outputs before it end, with
/// its resolve target right behind it.
pub proof fn lemma_flat_colors_entry<T>(colors: Seq<(T, Option<T>)>, k: int)
    requires
        0 <= k < colors.len(),
    ensures
        ({
            let start = flat_colors(colors.take(k)).len() as int;
            &&& start < flat_colors(colors).len()
            &&& flat_colors(colors)[start] == colors[k].0
            &&& colors[k].1 matches Some(resolve) ==> start + 1 < flat_colors(colors).len()
                && flat_colors(colors)[start + 1] == resolve
        }),
{
    lemma_flat_colors_step(colors, k);
    lemma_flat_colors_take(colors, k + 1);
    let row = flat_colors(colors);
    let shorter = flat_colors(colors.take(k));
    let longer = flat_colors(colors.take(k + 1));
    let start = shorter.len() as int;
    assert(longer == shorter + color_entries(colors[k]));
    assert(longer == row.take(longer.len() as int));
    assert(row[start] == longer[start]);
    assert(longer[start] == color_entries(colors[k])[0]);
    if colors[k].1 is Some {
        assert(row[start + 1] == longer[start + 1]);
        assert(longer[start + 1] == color_entries(colors[k])[1]);
    }
}

/// The number of entries of a render pass: one for each input, those of the
/// colour outputs, and one for the depth attachment if there is one.
pub proof fn lemma_flat_attachments_len<T>(
    inputs: Seq<T>,
    colors: Seq<(T, Option<T>)>,
    depth: Option<T>,
)
    ensures
        flat_attachments(inputs, colors, depth).len() == inputs.len() + flat_colors(colors).len()
            + if depth is Some {
            1int
        } else {
            0int
        },
{
}

/// Input `i` of a render pass lies at position `i`.
pub proof fn lemma_input_position<T>(
    inputs: Seq<T>,
    colors: Seq<(T, Option<T>)>,
    depth: Option<T>,
    i: int,
)
    requires
        0 <= i < inputs.len(),
    ensures
        i < flat_attachments(inputs, colors, depth).len(),
        flat_attachments(inputs, colors, depth)[i] == inputs[i],
{
}

/// Colour output `k` of a render pass lies at `color_position(.., k)`, with
/// its resolve target right behind it.
pub proof fn lemma_color_position<T>(
    inputs: Seq<T>,
    colors: Seq<(T, Option<T>)>,
    depth: Option<T>,
    k: int,
)
    requires
        0 <= k < colors.len(),
    ensures
        ({
            let position = color_position(inputs, colors, k) as int;
            let flat = flat_attachments(inputs, colors, depth);
            &&& position < flat.len()
            &&& flat[position] == colors[k].0
            &&& colors[k].1 matches Some(resolve) ==> position + 1 < flat.len() && flat[position
                + 1] == resolve
        }),
{
    lemma_flat_colors_entry(colors, k);
    let start = flat_colors(colors.take(k)).len() as int;
    let front = inputs + flat_colors(colors);
    assert(front[inputs.len() + start] == flat_colors(colors)[start]);
    if colors[k].1 is Some {
        assert(front[inputs.len() + start + 1] == flat_colors(colors)[start + 1]);
    }
}

/// The depth attachment of a render pass lies behind all the others.
pub proof fn lemma_depth_position<T>(inputs: Seq<T>, colors: Seq<(T, Option<T>)>, depth: Option<T>)
    requires
        depth is Some,
    ensures
        flat_attachments(inputs, colors, depth).len() == inputs.len() + flat_colors(colors).len()
            + 1,
        flat_attachments(inputs, colors, depth)[(inputs.len() + flat_colors(colors).len()) as int]
            == depth->0,
{
}

/// The uses that the subpass of a render pass makes of its attachments point
/// at the attachments they are meant for: the use of colour output `k` at the
/// description of that output, and the use of its resolve target at the
/// description of the resolve target.
pub proof fn lemma_color_ref_points_at_its_attachment(
    inputs: Seq<Attachment>,
    colors: Seq<(Attachment, Option<Attachment>)>,
    depth: Option<Attachment>,
    k: int,
)
    requires
        render_pass_fits(inputs, colors, depth),
        0 <= k < colors.len(),
    ensures
        ({
            let used = color_ref(inputs, colors, k);
            let table = flat_attachments(inputs, colors, depth);
            &&& used.color.attachment < table.len()
            &&& table[used.color.attachment as int] == colors[k].0
            &&& used.resolve is Some <==> colors[k].1 is Some
            &&& used.resolve matches Some(resolve) ==> resolve.attachment < table.len()
                && table[resolve.attachment as int] == colors[k].1->0
        }),
{
    lemma_color_position(inputs, colors, depth, k);
}

/// The use that the subpass makes of input `i` points at the description of
/// that input, and the use of the depth attachment at its description.
pub proof fn lemma_input_and_depth_refs_point_at_their_attachments(
    inputs: Seq<Attachment>,
    colors: Seq<(Attachment, Option<Attachment>)>,
    depth: Option<Attachment>,
)
    requires
        render_pass_fits(inputs, colors, depth),
    ensures
        forall|i: int|
            0 <= i < inputs.len() ==> (#[trigger] input_ref(i)).attachment == i
                && flat_attachments(inputs, colors, depth)[i] == inputs[i],
        depth_ref(inputs, colors, depth) matches Some(used) ==> used.attachment
            < flat_attachments(inputs, colors, depth).len() && Some(
            flat_attachments(inputs, colors, depth)[used.attachment as int],
        ) == depth,
        depth_ref(inputs, colors, depth) is Some <==> depth is Some,
{
    lemma_flat_attachments_len(inputs, colors, depth);
    if depth is Some {
        lemma_depth_position(inputs, colors, depth);
    }
}

/// Whether the attachments of a render pass can be numbered in 32 bits.
pub fn check_render_pass(
    inputs: &[Attachment],
    colors: &[(Attachment, Option<Attachment>)],
    depth: &Option<Attachment>,
) -> (fits: bool)
    ensures
        fits == render_pass_fits(inputs@, colors@, *depth),
{
    if inputs.len() > 0xFFFF_FFFF || colors.len() > 0xFFFF_FFFF {
        proof {
            lemma_flat_colors_bounds(colors@);
            lemma_flat_attachments_len(inputs@, colors@, *depth);
        }
        return false;
    }
    let mut total: u64 = inputs.len() as u64;
    let count: usize = colors.len();
    let mut k: usize = 0;
    proof {
        assert(colors@.take(0) =~= Seq::<(Attachment, Option<Attachment>)>::empty());
    }
    while k < count
        invariant
            count == colors@.len(),
            count <= u32::MAX,
            inputs@.len() <= u32::MAX,
            0 <= k <= count,
            total == inputs@.len() + flat_colors(colors@.take(k as int)).len(),
            total <= 0xFFFF_FFFF + 2 * k,
        decreases count - k,
    {
        proof {
            lemma_flat_colors_step(colors@, k as int);
        }
        total = total + if colors[k].1.is_some() {
            2
        } else {
            1
        };
        k += 1;
    }
    assert(colors@.take(count as int) =~= colors@);
    proof {
        lemma_flat_attachments_len(inputs@, colors@, *depth);
    }
    if depth.is_some() {
        total = total + 1;
    }
    total <= 0xFFFF_FFFF
}

/// Rows of the same shape put their entries at the same positions.
pub proof fn lemma_same_shape_same_positions<T, V>(
    descs: Seq<(T, Option<T>)>,
    views: Seq<(V, Option<V>)>,
    k: int,
)
    requires
        same_shape(descs, views),
        0 <= k <= descs.len(),
    ensures
        flat_colors(descs.take(k)).len() == flat_colors(views.take(k)).len(),
    decreases k,
{
    if k > 0 {
        lemma_same_shape_same_positions(descs, views, k - 1);
        lemma_flat_colors_step(descs, k - 1);
        lemma_flat_colors_step(views, k - 1);
        assert(descs[k - 1].1 is Some <==> views[k - 1].1 is Some);
    } else {
        assert(descs.take(0) =~= Seq::<(T, Option<T>)>::empty());
        assert(views.take(0) =~= Seq::<(V, Option<V>)>::empty());
    }
}

/// The image views of a set of attachments line up with the attachment table
/// of its render pass: there is one view for each entry of the table.
pub proof fn lemma_views_cover_table<G: RenderPassPrototype>(attachments: &Attachments<G>)
    ensures
        attachments.spec_as_raw().len() == flat_attachments(
            G::InputAttachments::spec_desc(),
            <G::ColorAttachments as ColorAttachments<G::SampleCount>>::spec_desc(),
            <G::DepthAttachment as DepthAttachmentType<G::SampleCount>>::spec_desc(),
        ).len(),
{
    let inputs = G::InputAttachments::spec_desc();
    let colors = <G::ColorAttachments as ColorAttachments<G::SampleCount>>::spec_desc();
    let depth = <G::DepthAttachment as DepthAttachmentType<G::SampleCount>>::spec_desc();
    let input_views = attachments.input_attachments.spec_as_raw();
    let color_views = attachments.color_attachments.spec_as_raw();
    let depth_view = attachments.depth_attachment.spec_as_raw();
    attachments.input_attachments.views_fit();
    attachments.color_attachments.views_fit();
    attachments.depth_attachment.views_fit();
    lemma_same_shape_same_positions(colors, color_views, colors.len() as int);
    assert(colors.take(colors.len() as int) =~= colors);
    assert(color_views.take(colors.len() as int) =~= color_views);
    lemma_flat_attachments_len(inputs, colors, depth);
    lemma_flat_attachments_len(input_views, color_views, depth_view);
}

/// The view of colour attachment `k` lies at the position that the subpass
/// of the render pass uses for that attachment, and the view of its resolve
/// target, if it has one, right behind it.
pub proof fn lemma_color_view_position<G: RenderPassPrototype>(
    attachments: &Attachments<G>,
    k: int,
)
    requires
        0 <= k < <G::ColorAttachments as ColorAttachments<G::SampleCount>>::spec_desc().len(),
    ensures
        ({
            let inputs = G::InputAttachments::spec_desc();
            let colors = <G::ColorAttachments as ColorAttachments<G::SampleCount>>::spec_desc();
            let color_views = attachments.color_attachments.spec_as_raw();
            let position = color_position(inputs, colors, k) as int;
            &&& k < color_views.len()
            &&& position < attachments.spec_as_raw().len()
            &&& attachments.spec_as_raw()[position] == color_views[k].0
            &&& colors[k].1 is Some <==> color_views[k].1 is Some
            &&& color_views[k].1 matches Some(resolve) ==> position + 1
                < attachments.spec_as_raw().len() && attachments.spec_as_raw()[position + 1]
                == resolve
        }),
{
    let inputs = G::InputAttachments::spec_desc();
    let colors = <G::ColorAttachments as ColorAttachments<G::SampleCount>>::spec_desc();
    let input_views = attachments.input_attachments.spec_as_raw();
    let color_views = attachments.color_attachments.spec_as_raw();
    let depth_view = attachments.depth_attachment.spec_as_raw();
    attachments.input_attachments.views_fit();
    attachments.color_attachments.views_fit();
    assert(colors[k].1 is Some <==> color_views[k].1 is Some);
    lemma_same_shape_same_positions(colors, color_views, k);
    assert(color_position(inputs, colors, k) == color_position(input_views, color_views, k));
    lemma_color_position(input_views, color_views, depth_view, k);
}

} // verus!
