//! The normalized automation domain.
//!
//! Hosts automate parameters through values in the unit interval. This crate
//! represents such a value exactly, as a signed count of fixed-point units:
//! `UNIT_SCALE` units stand for 1.0, zero units for 0.0. A `Normalized` may
//! lie outside the unit interval (modulation amounts legitimately do); the
//! operations that require the unit interval clamp first.

use vstd::prelude::*;

verus! {

/// Number of fixed-point units that make up the normalized value 1.0.
pub const UNIT_SCALE: i64 = 1_000_000_000_000_000_000;

/// A normalized value: `units` fixed-point units, where `UNIT_SCALE` units
/// are 1.0. Values outside the unit interval are representable on purpose.
#[derive(Clone, Copy, PartialEq, Eq, Structural, Debug)]
pub struct Normalized {
    pub units: i64,
}

impl Normalized {
    /// The value in units, as a mathematical integer.
    pub open spec fn view(self) -> int {
        self.units as int
    }

    /// True when the value lies in the unit interval [0.0, 1.0].
    pub open spec fn is_unit(self) -> bool {
        0 <= self.units <= UNIT_SCALE
    }

    /// The given value clamped into the unit interval, in units.
    pub open spec fn spec_clamped_units(units: int) -> int {
        if units < 0 {
            0
        } else if units > UNIT_SCALE {
            UNIT_SCALE as int
        } else {
            units
        }
    }

    /// The normalized value 0.0.
    pub fn zero() -> (r: Normalized)
        ensures
            r@ == 0,
            r.is_unit(),
    {
        Normalized { units: 0 }
    }

    /// The normalized value 1.0.
    pub fn one() -> (r: Normalized)
        ensures
            r@ == UNIT_SCALE,
            r.is_unit(),
    {
        Normalized { units: UNIT_SCALE }
    }

    /// A normalized value from a raw unit count.
    pub fn from_units(units: i64) -> (r: Normalized)
        ensures
            r@ == units,
    {
        Normalized { units }
    }

    /// The raw unit count.
    pub fn units(self) -> (r: i64)
        ensures
            r == self@,
    {
        self.units
    }

    /// The fraction `num / den` as a normalized value, rounded toward zero.
    pub fn from_ratio(num: u64, den: u64) -> (r: Normalized)
        requires
            0 < den,
            num <= den,
        ensures
            r@ == num * UNIT_SCALE / den as int,
            r.is_unit(),
    {
        proof {
            lemma_ratio_in_unit(num as int, den as int);
        }
        let units: u128 = num as u128 * UNIT_SCALE as u128 / den as u128;
        Normalized { units: units as i64 }
    }

    /// This value clamped into the unit interval.
    pub fn clamp_to_unit(self) -> (r: Normalized)
        ensures
            r@ == Normalized::spec_clamped_units(self@),
            r.is_unit(),
    {
        if self.units < 0 {
            Normalized { units: 0 }
        } else if self.units > UNIT_SCALE {
            Normalized { units: UNIT_SCALE }
        } else {
            self
        }
    }
}

/// A fraction of the scale with numerator at most the denominator stays in
/// the unit interval.
proof fn lemma_ratio_in_unit(num: int, den: int)
    requires
        0 < den,
        0 <= num <= den,
    ensures
        0 <= num * UNIT_SCALE / den <= UNIT_SCALE,
{
    assert(0 <= num * UNIT_SCALE / den <= UNIT_SCALE) by (nonlinear_arith)
        requires
            0 < den,
            0 <= num <= den,
    ;
}

} // verus!
