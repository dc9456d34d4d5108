//! The two analog readings and their comparison with the threshold.

use vstd::prelude::*;

verus! {

/// A scaled reading must be strictly above this value to qualify.
pub const THRESHOLD: u16 = 800;

/// The largest raw reading of the twelve-bit converter.
pub const RAW_MAX: u16 = 4095;

/// The largest scaled reading that a raw reading within `RAW_MAX` gives.
pub const MAX_SCALED: u16 = 1023;

/// The factor by which a raw reading is scaled down.
pub const SCALE_DIVISOR: u16 = 4;

/// The scaled value of one raw reading.
pub open spec fn scaled(raw: u16) -> u16 {
    (raw / 4) as u16
}

/// Scales one raw reading down by `SCALE_DIVISOR`.
pub fn scale(raw: u16) -> (out: u16)
    ensures
        out == scaled(raw),
        raw <= RAW_MAX ==> out <= MAX_SCALED,
{
    raw / SCALE_DIVISOR
}

/// One pair of scaled readings, taken together.
#[derive(Clone, Copy, Debug, PartialEq, Eq, Structural)]
pub struct SensorSample {
    pub sample1: u16,
    pub sample2: u16,
}

impl SensorSample {
    /// Both readings are strictly above the threshold.
    pub open spec fn above(self) -> bool {
        self.sample1 > THRESHOLD && self.sample2 > THRESHOLD
    }

    /// At least one reading is strictly below the threshold.
    pub open spec fn below(self) -> bool {
        self.sample1 < THRESHOLD || self.sample2 < THRESHOLD
    }

    /// Both readings lie in the scaled range.
    pub open spec fn in_range(self) -> bool {
        self.sample1 <= MAX_SCALED && self.sample2 <= MAX_SCALED
    }

    /// A sample of two readings that are already scaled.
    pub fn new(sample1: u16, sample2: u16) -> (out: SensorSample)
        ensures
            out.sample1 == sample1,
            out.sample2 == sample2,
    {
        SensorSample { sample1, sample2 }
    }

    /// A sample of two raw readings, each scaled down.
    pub fn from_raw(raw1: u16, raw2: u16) -> (out: SensorSample)
        ensures
            out.sample1 == scaled(raw1),
            out.sample2 == scaled(raw2),
            raw1 <= RAW_MAX && raw2 <= RAW_MAX ==> out.in_range(),
    {
        SensorSample { sample1: scale(raw1), sample2: scale(raw2) }
    }

    /// Whether both readings are strictly above the threshold.
    pub fn both_above(&self) -> (out: bool)
        ensures
            out == self.above(),
    {
        self.sample1 > THRESHOLD && self.sample2 > THRESHOLD
    }

    /// Whether at least one reading is strictly below the threshold.
    pub fn either_below(&self) -> (out: bool)
        ensures
            out == self.below(),
    {
        self.sample1 < THRESHOLD || self.sample2 < THRESHOLD
    }
}

} // verus!
