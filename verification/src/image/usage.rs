//! The ways in which an image may be used, as a set of flags and as types.

use vstd::prelude::*;
use crate::raw::{
    IMAGE_USAGE_COLOR_ATTACHMENT, IMAGE_USAGE_DEPTH_STENCIL_ATTACHMENT,
    IMAGE_USAGE_INPUT_ATTACHMENT, IMAGE_USAGE_SAMPLED, IMAGE_USAGE_STORAGE,
    IMAGE_USAGE_TRANSFER_DST, IMAGE_USAGE_TRANSFER_SRC,
};

verus! {

/// The bits of all the usages that a set can hold.
pub const ALL_USAGE_BITS: u32 = 0xBF;

/// A set of image usages that is only known at run time.
#[derive(Debug, Copy, Clone, PartialEq, Eq, Structural)]
pub struct DynImageUsage {
    /// One bit for each usage in the set.
    pub bits: u32,
}

impl DynImageUsage {
    /// Whether the set holds nothing but known usages.
    pub open spec fn valid(self) -> bool {
        self.bits & !ALL_USAGE_BITS == 0
    }

    /// Whether every usage of `other` is in this set.
    pub open spec fn spec_contains(self, other: DynImageUsage) -> bool {
        self.bits & other.bits == other.bits
    }

    /// Whether some usage is in both sets.
    pub open spec fn spec_intersects(self, other: DynImageUsage) -> bool {
        self.bits & other.bits != 0
    }

    /// The usages that are in this set or in `other`.
    pub open spec fn spec_union(self, other: DynImageUsage) -> DynImageUsage {
        DynImageUsage { bits: self.bits | other.bits }
    }

    /// The usages of this set that are not in `other`.
    pub open spec fn spec_difference(self, other: DynImageUsage) -> DynImageUsage {
        DynImageUsage { bits: self.bits & !other.bits }
    }

    /// The set without any usage.
    pub fn empty() -> (usage: DynImageUsage)
        ensures
            usage.bits == 0,
            usage.valid(),
    {
        assert(0u32 & !ALL_USAGE_BITS == 0) by (bit_vector);
        DynImageUsage { bits: 0 }
    }

    /// The set of all usages.
    pub fn all() -> (usage: DynImageUsage)
        ensures
            usage.bits == ALL_USAGE_BITS,
            usage.valid(),
    {
        assert(ALL_USAGE_BITS & !ALL_USAGE_BITS == 0) by (bit_vector);
        DynImageUsage { bits: ALL_USAGE_BITS }
    }

    /// The image is the source of a copy.
    pub fn transfer_src() -> (usage: DynImageUsage)
        ensures
            usage.bits == IMAGE_USAGE_TRANSFER_SRC,
            usage.valid(),
    {
        assert(IMAGE_USAGE_TRANSFER_SRC & !ALL_USAGE_BITS == 0) by (bit_vector);
        DynImageUsage { bits: IMAGE_USAGE_TRANSFER_SRC }
    }

    /// The image is the destination of a copy.
    pub fn transfer_dst() -> (usage: DynImageUsage)
        ensures
            usage.bits == IMAGE_USAGE_TRANSFER_DST,
            usage.valid(),
    {
        assert(IMAGE_USAGE_TRANSFER_DST & !ALL_USAGE_BITS == 0) by (bit_vector);
        DynImageUsage { bits: IMAGE_USAGE_TRANSFER_DST }
    }

    /// The image is sampled by shaders.
    pub fn sampled() -> (usage: DynImageUsage)
        ensures
            usage.bits == IMAGE_USAGE_SAMPLED,
            usage.valid(),
    {
        assert(IMAGE_USAGE_SAMPLED & !ALL_USAGE_BITS == 0) by (bit_vector);
        DynImageUsage { bits: IMAGE_USAGE_SAMPLED }
    }

    /// The image is read and written by shaders as a storage image.
    pub fn storage() -> (usage: DynImageUsage)
        ensures
            usage.bits == IMAGE_USAGE_STORAGE,
            usage.valid(),
    {
        assert(IMAGE_USAGE_STORAGE & !ALL_USAGE_BITS == 0) by (bit_vector);
        DynImageUsage { bits: IMAGE_USAGE_STORAGE }
    }

    /// The image is a colour attachment of a render pass.
    pub fn color_attachment() -> (usage: DynImageUsage)
        ensures
            usage.bits == IMAGE_USAGE_COLOR_ATTACHMENT,
            usage.valid(),
    {
        assert(IMAGE_USAGE_COLOR_ATTACHMENT & !ALL_USAGE_BITS == 0) by (bit_vector);
        DynImageUsage { bits: IMAGE_USAGE_COLOR_ATTACHMENT }
    }

    /// The image is the depth attachment of a render pass.
    pub fn depth_stencil_attachment() -> (usage: DynImageUsage)
        ensures
            usage.bits == IMAGE_USAGE_DEPTH_STENCIL_ATTACHMENT,
            usage.valid(),
    {
        assert(IMAGE_USAGE_DEPTH_STENCIL_ATTACHMENT & !ALL_USAGE_BITS == 0) by (bit_vector);
        DynImageUsage { bits: IMAGE_USAGE_DEPTH_STENCIL_ATTACHMENT }
    }

    /// The image is an input attachment of a render pass.
    pub fn input_attachment() -> (usage: DynImageUsage)
        ensures
            usage.bits == IMAGE_USAGE_INPUT_ATTACHMENT,
            usage.valid(),
    {
        assert(IMAGE_USAGE_INPUT_ATTACHMENT & !ALL_USAGE_BITS == 0) by (bit_vector);
        DynImageUsage { bits: IMAGE_USAGE_INPUT_ATTACHMENT }
    }

    /// The flags of the set.
    pub fn bits(&self) -> (bits: u32)
        ensures
            bits == self.bits,
    {
        self.bits
    }

    /// The set with the given flags, if each of them stands for a usage.
    pub fn from_bits(bits: u32) -> (usage: Option<DynImageUsage>)
        ensures
            usage == if bits & !ALL_USAGE_BITS == 0 {
                Some(DynImageUsage { bits })
            } else {
                None
            },
    {
        if bits & !ALL_USAGE_BITS == 0 {
            Some(DynImageUsage { bits })
        } else {
            None
        }
    }

    /// The set with those of the given flags that stand for a usage.
    pub fn from_bits_truncate(bits: u32) -> (usage: DynImageUsage)
        ensures
            usage.bits == bits & ALL_USAGE_BITS,
            usage.valid(),
    {
        assert((bits & ALL_USAGE_BITS) & !ALL_USAGE_BITS == 0) by (bit_vector);
        DynImageUsage { bits: bits & ALL_USAGE_BITS }
    }

    /// Whether the set holds no usage.
    pub fn is_empty(&self) -> (none: bool)
        ensures
            none == (self.bits == 0),
    {
        self.bits == 0
    }

    /// Whether every usage of `other` is in this set.
    #[verifier::when_used_as_spec(spec_contains)]
    pub fn contains(self, other: DynImageUsage) -> (held: bool)
        ensures
            held == self.spec_contains(other),
    {
        self.bits & other.bits == other.bits
    }

    /// Whether some usage is in both sets.
    #[verifier::when_used_as_spec(spec_intersects)]
    pub fn intersects(self, other: DynImageUsage) -> (shared: bool)
        ensures
            shared == self.spec_intersects(other),
    {
        self.bits & other.bits != 0
    }

    /// The usages that are in this set or in `other`.
    #[verifier::when_used_as_spec(spec_union)]
    pub fn union(self, other: DynImageUsage) -> (both: DynImageUsage)
        ensures
            both == self.spec_union(other),
    {
        DynImageUsage { bits: self.bits | other.bits }
    }

    /// Adds the usages of `other` to this set.
    pub fn insert(&mut self, other: DynImageUsage)
        ensures
            *final(self) == old(self).spec_union(other),
    {
        self.bits = self.bits | other.bits;
    }

    /// Takes the usages of `other` out of this set.
    pub fn remove(&mut self, other: DynImageUsage)
        ensures
            *final(self) == old(self).spec_difference(other),
    {
        self.bits = self.bits & !other.bits;
    }
}

impl core::ops::BitOr for DynImageUsage {
    type Output = DynImageUsage;

    fn bitor(self, other: DynImageUsage) -> (both: DynImageUsage)
        ensures
            both == self.spec_union(other),
    {
        DynImageUsage { bits: self.bits | other.bits }
    }
}

impl vstd::std_specs::ops::BitOrSpecImpl for DynImageUsage {
    open spec fn obeys_bitor_spec() -> bool {
        true
    }

    open spec fn bitor_req(self, other: DynImageUsage) -> bool {
        true
    }

    open spec fn bitor_spec(self, other: DynImageUsage) -> DynImageUsage {
        self.spec_union(other)
    }
}

/// A usage of an image that is part of the image's type. A value of the type
/// names the usages that the image is known to support; the image may support
/// more.
pub trait ImageUsageType: Copy {
    /// The usages that the value stands for.
    spec fn spec_as_dyn(self) -> DynImageUsage;

    /// The usages that the value stands for, as a set.
    fn as_dyn(self) -> (usage: DynImageUsage)
        ensures
            usage == self.spec_as_dyn(),
    ;

    /// The usages that the value stands for, as usage flags.
    fn as_raw(self) -> (flags: u32)
        ensures
            flags == self.spec_as_dyn().bits,
    ;
}

impl ImageUsageType for DynImageUsage {
    open spec fn spec_as_dyn(self) -> DynImageUsage {
        self
    }

    fn as_dyn(self) -> (usage: DynImageUsage) {
        self
    }

    fn as_raw(self) -> (flags: u32) {
        self.bits
    }
}

/// The image is known to be usable as the source of a copy.
#[derive(Debug, Copy, Clone)]
pub struct TransferSrc;

impl ImageUsageType for TransferSrc {
    open spec fn spec_as_dyn(self) -> DynImageUsage {
        DynImageUsage { bits: IMAGE_USAGE_TRANSFER_SRC }
    }

    fn as_dyn(self) -> (usage: DynImageUsage) {
        DynImageUsage::transfer_src()
    }

    fn as_raw(self) -> (flags: u32) {
        IMAGE_USAGE_TRANSFER_SRC
    }
}

/// The image is known to be usable as the destination of a copy.
#[derive(Debug, Copy, Clone)]
pub struct TransferDst;

impl ImageUsageType for TransferDst {
    open spec fn spec_as_dyn(self) -> DynImageUsage {
        DynImageUsage { bits: IMAGE_USAGE_TRANSFER_DST }
    }

    fn as_dyn(self) -> (usage: DynImageUsage) {
        DynImageUsage::transfer_dst()
    }

    fn as_raw(self) -> (flags: u32) {
        IMAGE_USAGE_TRANSFER_DST
    }
}

/// The image is known to be usable for sampling in shaders.
#[derive(Debug, Copy, Clone)]
pub struct SampledImage;

impl ImageUsageType for SampledImage {
    open spec fn spec_as_dyn(self) -> DynImageUsage {
        DynImageUsage { bits: IMAGE_USAGE_SAMPLED }
    }

    fn as_dyn(self) -> (usage: DynImageUsage) {
        DynImageUsage::sampled()
    }

    fn as_raw(self) -> (flags: u32) {
        IMAGE_USAGE_SAMPLED
    }
}

/// The image is known to be usable as a storage image.
#[derive(Debug, Copy, Clone)]
pub struct Storage;

impl ImageUsageType for Storage {
    open spec fn spec_as_dyn(self) -> DynImageUsage {
        DynImageUsage { bits: IMAGE_USAGE_STORAGE }
    }

    fn as_dyn(self) -> (usage: DynImageUsage) {
        DynImageUsage::storage()
    }

    fn as_raw(self) -> (flags: u32) {
        IMAGE_USAGE_STORAGE
    }
}

/// The image is known to be usable as a colour attachment.
#[derive(Debug, Copy, Clone)]
pub struct ColorAttachment;

impl ImageUsageType for ColorAttachment {
    open spec fn spec_as_dyn(self) -> DynImageUsage {
        DynImageUsage { bits: IMAGE_USAGE_COLOR_ATTACHMENT }
    }

    fn as_dyn(self) -> (usage: DynImageUsage) {
        DynImageUsage::color_attachment()
    }

    fn as_raw(self) -> (flags: u32) {
        IMAGE_USAGE_COLOR_ATTACHMENT
    }
}

/// The image is known to be usable as a depth attachment.
#[derive(Debug, Copy, Clone)]
pub struct DepthStencilAttachment;

impl ImageUsageType for DepthStencilAttachment {
    open spec fn spec_as_dyn(self) -> DynImageUsage {
        DynImageUsage { bits: IMAGE_USAGE_DEPTH_STENCIL_ATTACHMENT }
    }

    fn as_dyn(self) -> (usage: DynImageUsage) {
        DynImageUsage::depth_stencil_attachment()
    }

    fn as_raw(self) -> (flags: u32) {
        IMAGE_USAGE_DEPTH_STENCIL_ATTACHMENT
    }
}

/// The image is known to be usable as an input attachment.
#[derive(Debug, Copy, Clone)]
pub struct InputAttachment;

impl ImageUsageType for InputAttachment {
    open spec fn spec_as_dyn(self) -> DynImageUsage {
        DynImageUsage { bits: IMAGE_USAGE_INPUT_ATTACHMENT }
    }

    fn as_dyn(self) -> (usage: DynImageUsage) {
        DynImageUsage::input_attachment()
    }

    fn as_raw(self) -> (flags: u32) {
        IMAGE_USAGE_INPUT_ATTACHMENT
    }
}

/// A set holds each of its own usages.
pub proof fn lemma_contains_reflexive(a: DynImageUsage)
    ensures
        a.spec_contains(a),
{
    let x = a.bits;
    assert(x & x == x) by (bit_vector);
}

/// What a part of a part holds, the whole holds.
pub proof fn lemma_contains_transitive(a: DynImageUsage, b: DynImageUsage, c: DynImageUsage)
    requires
        a.spec_contains(b),
        b.spec_contains(c),
    ensures
        a.spec_contains(c),
{
    let (x, y, z) = (a.bits, b.bits, c.bits);
    assert(x & y == y && y & z == z ==> x & z == z) by (bit_vector);
}

/// Two sets that hold each other are the same set.
pub proof fn lemma_contains_antisymmetric(a: DynImageUsage, b: DynImageUsage)
    requires
        a.spec_contains(b),
        b.spec_contains(a),
    ensures
        a == b,
{
    let (x, y) = (a.bits, b.bits);
    assert(x & y == y && y & x == x ==> x == y) by (bit_vector);
}

/// Every set holds the empty set.
pub proof fn lemma_contains_empty(a: DynImageUsage)
    ensures
        a.spec_contains(DynImageUsage { bits: 0 }),
{
    let x = a.bits;
    assert(x & 0 == 0) by (bit_vector);
}

/// A union holds a set exactly if that set lies within the two parts taken
/// together, and it always holds both parts.
pub proof fn lemma_union_is_least_upper_bound(a: DynImageUsage, b: DynImageUsage, c: DynImageUsage)
    ensures
        a.spec_union(b).spec_contains(a),
        a.spec_union(b).spec_contains(b),
        c.spec_contains(a) && c.spec_contains(b) <==> c.spec_contains(a.spec_union(b)),
        a.spec_union(b) == b.spec_union(a),
{
    let (x, y, z) = (a.bits, b.bits, c.bits);
    assert((x | y) & x == x) by (bit_vector);
    assert((x | y) & y == y) by (bit_vector);
    assert((z & x == x && z & y == y) <==> (z & (x | y) == (x | y))) by (bit_vector);
    assert(x | y == y | x) by (bit_vector);
}

/// Sets of known usages stay sets of known usages under union and difference.
pub proof fn lemma_valid_closed(a: DynImageUsage, b: DynImageUsage)
    requires
        a.valid(),
        b.valid(),
    ensures
        a.spec_union(b).valid(),
        a.spec_difference(b).valid(),
{
    let (x, y) = (a.bits, b.bits);
    assert(x & !ALL_USAGE_BITS == 0 && y & !ALL_USAGE_BITS == 0 ==> (x | y) & !ALL_USAGE_BITS == 0)
        by (bit_vector);
    assert(x & !ALL_USAGE_BITS == 0 ==> (x & !y) & !ALL_USAGE_BITS == 0) by (bit_vector);
}

} // verus!
