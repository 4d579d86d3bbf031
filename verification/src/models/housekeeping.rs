//! Housekeeping record of the radiation counter.

use vstd::prelude::*;

verus! {

/// Per-channel sums of one aggregation window.
#[derive(Clone, Copy, Debug, PartialEq, Eq, Structural)]
pub struct RCHk {
    /// RC1 sum of the window
    pub rc1_reading: i32,
    /// RC2 sum of the window
    pub rc2_reading: i32,
    /// RC3 sum of the window
    pub rc3_reading: i32,
    /// RC4 sum of the window
    pub rc4_reading: i32,
    /// RC5 sum of the window
    pub rc5_reading: i32,
}

impl RCHk {
    /// The record in which every channel is zero.
    pub open spec fn zero() -> RCHk {
        RCHk { rc1_reading: 0, rc2_reading: 0, rc3_reading: 0, rc4_reading: 0, rc5_reading: 0 }
    }
}

impl Default for RCHk {
    fn default() -> (record: RCHk)
        ensures
            record == RCHk::zero(),
    {
        RCHk { rc1_reading: 0, rc2_reading: 0, rc3_reading: 0, rc4_reading: 0, rc5_reading: 0 }
    }
}

} // verus!
