//! Steal-time readings in fixed-point form.

use vstd::prelude::*;

verus! {

/// Number of reading units in one percent: a unit is a millionth of a percent.
pub const UNITS_PER_PERCENT: u64 = 1_000_000;

/// The reading of one hundred percent.
pub const FULL_SCALE: u64 = 100 * UNITS_PER_PERCENT;

/// Number of decimal places of a percentage that a reading resolves.
pub const FRACTION_DIGITS: usize = 6;

/// Ten to the power of `n`.
pub open spec fn pow10(n: nat) -> nat
    decreases n,
{
    if n == 0 {
        1
    } else {
        10 * pow10((n - 1) as nat)
    }
}

/// Steal time's share of the accounted CPU time, in millionths of a percent.
///
/// The view is the number of units as a natural number. A reading derived
/// from a snapshot lies between 0 and 100 percent; a reading built by hand
/// may hold any value.
#[derive(Clone, Copy, Debug, PartialEq, Eq, Structural)]
pub struct StealReading {
    pub micro_percent: u64,
}

impl View for StealReading {
    type V = nat;

    open spec fn view(&self) -> nat {
        self.micro_percent as nat
    }
}

impl StealReading {
    /// The reading of `units` millionths of a percent.
    pub fn from_micro_percent(units: u64) -> (reading: StealReading)
        ensures
            reading@ == units,
    {
        StealReading { micro_percent: units }
    }

    /// The reading of `percent` whole percent.
    pub fn from_percent(percent: u32) -> (reading: StealReading)
        ensures
            reading@ == percent * UNITS_PER_PERCENT,
    {
        let wide: u64 = percent as u64;
        assert(wide * UNITS_PER_PERCENT <= u64::MAX) by (nonlinear_arith)
            requires
                wide <= u32::MAX,
                UNITS_PER_PERCENT == 1_000_000,
        ;
        StealReading { micro_percent: wide * UNITS_PER_PERCENT }
    }
}

} // verus!
