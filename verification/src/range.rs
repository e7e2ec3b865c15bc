//! Range mapping policy for a bounded integer parameter.
//!
//! An `IntRange` converts between the plain domain `[min, max]` and the
//! normalized unit interval. `normalized_to_plain` is total: any input, even
//! one outside the unit interval, is clamped and then quantized to an
//! in-range bucket. `plain_to_normalized` is partial: a plain value outside
//! `[min, max]` yields `None`, so that callers can validate externally
//! supplied values instead of silently clamping them.

use vstd::prelude::*;
use vstd::arithmetic::div_mod::{lemma_fundamental_div_mod, lemma_mod_bound};

use crate::normalized::{Normalized, UNIT_SCALE};

verus! {

/// An inclusive plain-value range `[min, max]` for an integer parameter.
#[derive(Clone, Copy, PartialEq, Eq, Structural, Debug)]
pub struct IntRange {
    pub min: i64,
    pub max: i64,
}

impl IntRange {
    /// A range is well formed when its span is not negative.
    pub open spec fn wf(self) -> bool {
        self.min <= self.max
    }

    /// The inclusive lower bound.
    pub open spec fn spec_min(self) -> int {
        self.min as int
    }

    /// The inclusive upper bound.
    pub open spec fn spec_max(self) -> int {
        self.max as int
    }

    /// Number of steps between the bounds; 0 for a single-point range.
    pub open spec fn spec_steps(self) -> int {
        self.max - self.min
    }

    /// The given plain value restricted to `[min, max]`.
    pub open spec fn spec_clamp(self, value: int) -> int {
        if value < self.min {
            self.min as int
        } else if value > self.max {
            self.max as int
        } else {
            value
        }
    }

    /// The normalized unit count for an in-range plain value: the fraction
    /// of the span covered, rounded toward zero; 0 on a single-point range.
    pub open spec fn spec_plain_to_normalized(self, plain: int) -> int {
        if self.spec_steps() == 0 {
            0
        } else {
            (plain - self.min) * UNIT_SCALE / self.spec_steps()
        }
    }

    /// The plain value for a normalized unit count in `[0, UNIT_SCALE]`:
    /// quantization into `steps + 1` buckets, with the bucket index capped
    /// at `steps`.
    pub open spec fn spec_normalized_to_plain_unit(self, units: int) -> int {
        let bucket = units * (self.spec_steps() + 1) / (UNIT_SCALE as int);
        if bucket > self.spec_steps() {
            self.min + self.spec_steps()
        } else {
            self.min + bucket
        }
    }

    /// The plain value for any normalized unit count: the input is clamped
    /// into the unit interval first, so the mapping is total.
    pub open spec fn spec_normalized_to_plain(self, units: int) -> int {
        self.spec_normalized_to_plain_unit(Normalized::spec_clamped_units(units))
    }

    /// A new range over `[min, max]`. A negative span is a configuration
    /// error and is rejected here, at construction.
    pub fn new(min: i64, max: i64) -> (r: IntRange)
        requires
            min <= max,
        ensures
            r.wf(),
            r.spec_min() == min,
            r.spec_max() == max,
    {
        IntRange { min, max }
    }

    /// The given plain value restricted to `[min, max]`.
    pub fn clamp(&self, value: i64) -> (r: i64)
        requires
            self.wf(),
        ensures
            r == self.spec_clamp(value as int),
            self.spec_min() <= r <= self.spec_max(),
    {
        if value < self.min {
            self.min
        } else if value > self.max {
            self.max
        } else {
            value
        }
    }

    /// Number of discrete steps in the range: 0 means a single-point range,
    /// `n` means `n + 1` discrete positions.
    pub fn steps(&self) -> (r: u64)
        requires
            self.wf(),
        ensures
            r == self.spec_steps(),
    {
        (self.max as i128 - self.min as i128) as u64
    }

    /// The normalized value of an in-range plain value; `None` when the
    /// plain value lies outside `[min, max]`. Never divides by zero: a
    /// single-point range maps its one value to 0.0.
    pub fn plain_to_normalized(&self, plain: i64) -> (r: Option<Normalized>)
        requires
            self.wf(),
        ensures
            r is Some <==> self.spec_min() <= plain <= self.spec_max(),
            r matches Some(n) ==> n@ == self.spec_plain_to_normalized(plain as int) && n.is_unit(),
    {
        if plain < self.min || plain > self.max {
            return None;
        }
        let steps = self.steps();
        if steps == 0 {
            return Some(Normalized::from_units(0));
        }
        let offset: u128 = (plain as i128 - self.min as i128) as u128;
        let units: u128 = offset * UNIT_SCALE as u128 / steps as u128;
        proof {
            lemma_fraction_of_scale_in_unit(offset as int, steps as int);
        }
        Some(Normalized::from_units(units as i64))
    }

    /// The plain value selected by a normalized value. Total: the input is
    /// clamped into the unit interval, quantized into `steps + 1` buckets,
    /// and the bucket index is capped, so the result always lies in
    /// `[min, max]`.
    pub fn normalized_to_plain(&self, normalized: Normalized) -> (r: i64)
        requires
            self.wf(),
        ensures
            r == self.spec_normalized_to_plain(normalized@),
            self.spec_min() <= r <= self.spec_max(),
    {
        let clamped = normalized.clamp_to_unit();
        let units: u128 = clamped.units() as u128;
        let steps = self.steps();
        proof {
            assert(units as int * (steps as int + 1) <= UNIT_SCALE * 0x1_0000_0000_0000_0000)
                by (nonlinear_arith)
                requires
                    0 <= units <= UNIT_SCALE,
                    0 <= steps < 0x1_0000_0000_0000_0000,
            ;
        }
        let scaled: u128 = units * (steps as u128 + 1);
        let bucket_raw: u128 = scaled / UNIT_SCALE as u128;
        proof {
            lemma_bucket_bound(units as int, steps as int);
        }
        let bucket: u64 = if bucket_raw > steps as u128 {
            steps
        } else {
            bucket_raw as u64
        };
        (self.min as i128 + bucket as i128) as i64
    }
}

/// Round-trip law: converting an in-range plain value to its normalized
/// value and back recovers the plain value exactly, on every range whose
/// step count is small enough for the fixed-point scale to separate
/// adjacent buckets.
pub proof fn lemma_plain_round_trip(range: IntRange, plain: int)
    requires
        range.wf(),
        range.spec_min() <= plain <= range.spec_max(),
        range.spec_steps() * (range.spec_steps() + 1) <= UNIT_SCALE,
    ensures
        range.spec_normalized_to_plain(range.spec_plain_to_normalized(plain)) == plain,
{
    let s = range.spec_steps();
    let d = plain - range.spec_min();
    let sc = UNIT_SCALE as int;
    if s == 0 {
        assert(0 * (s + 1) == 0);
        assert(0int / sc == 0) by (nonlinear_arith)
            requires
                0 < sc,
        ;
    } else {
        let n = d * sc / s;
        lemma_fraction_of_scale_in_unit(d, s);
        assert(Normalized::spec_clamped_units(n) == n);
        let b = n * (s + 1) / sc;
        lemma_fundamental_div_mod(d * sc, s);
        lemma_mod_bound(d * sc, s);
        let r1 = (d * sc) % s;
        assert(d * sc == s * n + r1);
        lemma_fundamental_div_mod(n * (s + 1), sc);
        lemma_mod_bound(n * (s + 1), sc);
        let r2 = (n * (s + 1)) % sc;
        assert(n * (s + 1) == sc * b + r2);
        if d == s {
            assert(n == sc) by (nonlinear_arith)
                requires
                    0 < s,
                    d == s,
                    d * sc == s * n + r1,
                    0 <= r1 < s,
                    0 <= n <= sc,
            ;
            assert(b == s + 1) by (nonlinear_arith)
                requires
                    n == sc,
                    0 < sc,
                    n * (s + 1) == sc * b + r2,
                    0 <= r2 < sc,
            ;
        } else if d == 0 {
            assert(n == 0) by (nonlinear_arith)
                requires
                    0 < s,
                    d == 0,
                    d * sc == s * n + r1,
                    0 <= r1 < s,
                    0 <= n,
            ;
            assert(b == 0) by (nonlinear_arith)
                requires
                    n == 0,
                    0 < sc,
                    n * (s + 1) == sc * b + r2,
                    0 <= r2 < sc,
            ;
        } else {
            assert(b == d) by (nonlinear_arith)
                requires
                    0 < d < s,
                    s * (s + 1) <= sc,
                    d * sc == s * n + r1,
                    0 <= r1 < s,
                    n * (s + 1) == sc * b + r2,
                    0 <= r2 < sc,
            ;
        }
    }
}

/// Clamp-invariant law: whatever normalized value is written, in or out of
/// the unit interval, the plain value it selects lies in `[min, max]`, and
/// the normalized value read back for it lies in the unit interval.
pub proof fn lemma_clamp_invariant(range: IntRange, units: int)
    requires
        range.wf(),
    ensures
        range.spec_min() <= range.spec_normalized_to_plain(units) <= range.spec_max(),
        0 <= range.spec_plain_to_normalized(range.spec_normalized_to_plain(units)) <= UNIT_SCALE,
{
    let u = Normalized::spec_clamped_units(units);
    let s = range.spec_steps();
    lemma_bucket_bound(u, s);
    let plain = range.spec_normalized_to_plain(units);
    if s != 0 {
        lemma_fraction_of_scale_in_unit(plain - range.spec_min(), s);
    }
}

/// Degenerate-range law: a single-point range (`min == max`) has no steps,
/// and every normalized input, in or out of the unit interval, maps to
/// `min`; no division by zero occurs because quantization multiplies by
/// `steps + 1` and never divides by `steps`.
pub proof fn lemma_degenerate_range(range: IntRange, units: int)
    requires
        range.wf(),
        range.spec_min() == range.spec_max(),
    ensures
        range.spec_steps() == 0,
        range.spec_normalized_to_plain(units) == range.spec_min(),
{
    let u = Normalized::spec_clamped_units(units);
    let sc = UNIT_SCALE as int;
    assert(u * 1 == u);
    if u < sc {
        assert(u / sc == 0) by (nonlinear_arith)
            requires
                0 <= u < sc,
        ;
    } else {
        assert(sc / sc == 1) by (nonlinear_arith)
            requires
                0 < sc,
        ;
    }
}

/// A fraction `offset / steps` of the scale, with `offset <= steps`, yields
/// a unit count in `[0, UNIT_SCALE]`.
proof fn lemma_fraction_of_scale_in_unit(offset: int, steps: int)
    requires
        0 < steps,
        0 <= offset <= steps,
    ensures
        0 <= offset * UNIT_SCALE / steps <= UNIT_SCALE,
{
    assert(0 <= offset * UNIT_SCALE / steps <= UNIT_SCALE) by (nonlinear_arith)
        requires
            0 < steps,
            0 <= offset <= steps,
    ;
}

/// Quantizing a unit count in `[0, UNIT_SCALE]` into `steps + 1` buckets
/// yields a bucket index of at most `steps + 1`.
proof fn lemma_bucket_bound(units: int, steps: int)
    requires
        0 <= units <= UNIT_SCALE,
        0 <= steps,
    ensures
        0 <= units * (steps + 1) / (UNIT_SCALE as int) <= steps + 1,
{
    assert(0 <= units * (steps + 1) / (UNIT_SCALE as int) <= steps + 1) by (nonlinear_arith)
        requires
            0 <= units <= UNIT_SCALE,
            0 <= steps,
    ;
}

} // verus!
