//! The number of samples per texel of an image, as types.

use vstd::prelude::*;
use crate::raw::{SAMPLE_COUNT_1, SAMPLE_COUNT_2, SAMPLE_COUNT_4, SAMPLE_COUNT_8};

verus! {

/// A number of samples per texel, known at compile time.
pub trait SampleCountType {
    /// The flag of the sample count.
    spec fn spec_as_raw() -> u32;

    /// The flag of the sample count.
    fn as_raw() -> (flag: u32)
        ensures
            flag == Self::spec_as_raw(),
    ;
}

/// A sample count of more than one sample per texel.
pub trait MultiSampleCountType: SampleCountType {
    /// The flag is not that of a single sample.
    proof fn more_than_one()
        ensures
            Self::spec_as_raw() != SAMPLE_COUNT_1,
    ;
}

/// One sample per texel.
pub struct SampleCount1;

/// Two samples per texel.
pub struct SampleCount2;

/// Four samples per texel.
pub struct SampleCount4;

/// Eight samples per texel.
pub struct SampleCount8;

impl SampleCountType for SampleCount1 {
    open spec fn spec_as_raw() -> u32 {
        SAMPLE_COUNT_1
    }

    fn as_raw() -> (flag: u32) {
        SAMPLE_COUNT_1
    }
}

impl SampleCountType for SampleCount2 {
    open spec fn spec_as_raw() -> u32 {
        SAMPLE_COUNT_2
    }

    fn as_raw() -> (flag: u32) {
        SAMPLE_COUNT_2
    }
}

impl SampleCountType for SampleCount4 {
    open spec fn spec_as_raw() -> u32 {
        SAMPLE_COUNT_4
    }

    fn as_raw() -> (flag: u32) {
        SAMPLE_COUNT_4
    }
}

impl SampleCountType for SampleCount8 {
    open spec fn spec_as_raw() -> u32 {
        SAMPLE_COUNT_8
    }

    fn as_raw() -> (flag: u32) {
        SAMPLE_COUNT_8
    }
}

impl MultiSampleCountType for SampleCount2 {
    proof fn more_than_one() {
    }
}

impl MultiSampleCountType for SampleCount4 {
    proof fn more_than_one() {
    }
}

impl MultiSampleCountType for SampleCount8 {
    proof fn more_than_one() {
    }
}

} // verus!
