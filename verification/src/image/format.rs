//! Image formats as types.

use vstd::prelude::*;
use crate::math::{Scalar, Vec4};
use crate::raw::{
    FORMAT_B8G8R8A8_UNORM, FORMAT_D32_SFLOAT, FORMAT_R8G8B8A8_SRGB, FORMAT_R8G8B8A8_UNORM,
    IMAGE_ASPECT_COLOR, IMAGE_ASPECT_DEPTH,
};

verus! {

/// The format of an image, known at compile time.
pub trait FormatType {
    /// What one texel of the image is cleared with.
    type Pixel;

    /// The format code.
    spec fn spec_as_raw() -> i32;

    /// The aspects that an image of this format has.
    spec fn spec_aspect() -> u32;

    /// The format code.
    fn as_raw() -> (code: i32)
        ensures
            code == Self::spec_as_raw(),
    ;

    /// The aspects that an image of this format has.
    fn aspect() -> (flags: u32)
        ensures
            flags == Self::spec_aspect(),
    ;
}

/// Whether the aspects `flags` hold every aspect of `wanted`.
pub open spec fn aspect_contains(flags: u32, wanted: u32) -> bool {
    flags & wanted == wanted
}

/// Four 8-bit channels in the order blue, green, red, alpha.
pub struct B8G8R8A8Unorm;

/// Four 8-bit channels in the order red, green, blue, alpha.
pub struct R8G8B8A8Unorm;

/// Four 8-bit channels in the order red, green, blue, alpha, with the colours
/// in sRGB encoding.
pub struct R8G8B8A8Srgb;

/// One 32-bit depth value.
pub struct D32Sfloat;

impl FormatType for B8G8R8A8Unorm {
    type Pixel = Vec4;

    open spec fn spec_as_raw() -> i32 {
        FORMAT_B8G8R8A8_UNORM
    }

    open spec fn spec_aspect() -> u32 {
        IMAGE_ASPECT_COLOR
    }

    fn as_raw() -> (code: i32) {
        FORMAT_B8G8R8A8_UNORM
    }

    fn aspect() -> (flags: u32) {
        IMAGE_ASPECT_COLOR
    }
}

impl FormatType for R8G8B8A8Unorm {
    type Pixel = Vec4;

    open spec fn spec_as_raw() -> i32 {
        FORMAT_R8G8B8A8_UNORM
    }

    open spec fn spec_aspect() -> u32 {
        IMAGE_ASPECT_COLOR
    }

    fn as_raw() -> (code: i32) {
        FORMAT_R8G8B8A8_UNORM
    }

    fn aspect() -> (flags: u32) {
        IMAGE_ASPECT_COLOR
    }
}

impl FormatType for R8G8B8A8Srgb {
    type Pixel = Vec4;

    open spec fn spec_as_raw() -> i32 {
        FORMAT_R8G8B8A8_SRGB
    }

    open spec fn spec_aspect() -> u32 {
        IMAGE_ASPECT_COLOR
    }

    fn as_raw() -> (code: i32) {
        FORMAT_R8G8B8A8_SRGB
    }

    fn aspect() -> (flags: u32) {
        IMAGE_ASPECT_COLOR
    }
}

impl FormatType for D32Sfloat {
    type Pixel = Scalar;

    open spec fn spec_as_raw() -> i32 {
        FORMAT_D32_SFLOAT
    }

    open spec fn spec_aspect() -> u32 {
        IMAGE_ASPECT_DEPTH
    }

    fn as_raw() -> (code: i32) {
        FORMAT_D32_SFLOAT
    }

    fn aspect() -> (flags: u32) {
        IMAGE_ASPECT_DEPTH
    }
}

} // verus!
