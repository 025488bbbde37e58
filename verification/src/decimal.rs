//! Decimal amounts, held as a signed count of billionths of a whole.
//!
//! Monetary values, share counts and allocation weights are all carried in
//! this one fixed-point form, so every arithmetic step of the report is plain
//! integer arithmetic with an explicit rounding rule.

use vstd::prelude::*;
use vstd::arithmetic::div_mod::{
    lemma_div_is_ordered, lemma_div_is_ordered_by_denominator, lemma_div_multiples_vanish_fancy,
};

verus! {

/// Number of fixed-point units in one whole: amounts are stored in billionths.
pub const UNIT: i128 = 1_000_000_000;

/// Largest magnitude, in units, that a well-formed amount may hold.
pub const UNITS_LIMIT: i128 = 1_000_000_000_000_000_000_000_000_000;

/// Largest mantissa accepted by [`Decimal::new`]: scaling it by a full
/// billion still stays within [`UNITS_LIMIT`].
pub const MANTISSA_LIMIT: i64 = 1_000_000_000_000_000_000;

/// The exact quotient `p / q` (with `q > 0`) rounded to the nearest integer,
/// halves away from zero.
pub open spec fn round_half_away(p: int, q: int) -> int {
    if p >= 0 {
        (2 * p + q) / (2 * q)
    } else {
        -((2 * (-p) + q) / (2 * q))
    }
}

/// The absolute value of `p`.
pub open spec fn abs_int(p: int) -> int {
    if p < 0 {
        -p
    } else {
        p
    }
}

/// The quotient `u / q` (with `q > 0`) truncated toward zero.
pub open spec fn trunc_div(u: int, q: int) -> int {
    if u >= 0 {
        u / q
    } else {
        -((-u) / q)
    }
}

/// Ten to the `n`-th power.
pub open spec fn pow10(n: nat) -> int
    decreases n,
{
    if n == 0 {
        1
    } else {
        10 * pow10((n - 1) as nat)
    }
}

/// A decimal amount: `units` billionths of a whole.
#[derive(Clone, Copy, Debug, PartialEq, Eq, Structural)]
pub struct Decimal {
    pub units: i128,
}

impl View for Decimal {
    type V = int;

    open spec fn view(&self) -> int {
        self.units as int
    }
}

impl Decimal {
    /// The amount is small enough that every step of the report stays within
    /// machine integer range.
    pub open spec fn wf(&self) -> bool {
        -(UNITS_LIMIT as int) <= self.units <= UNITS_LIMIT as int
    }

    /// The decimal `mantissa · 10^(-scale)`, as in writing `12346` with scale
    /// `1` for `1234.6`.
    pub fn new(mantissa: i64, scale: u32) -> (r: Decimal)
        requires
            scale <= 9,
            -MANTISSA_LIMIT <= mantissa <= MANTISSA_LIMIT,
        ensures
            r@ == mantissa * pow10((9 - scale) as nat),
            r.wf(),
    {
        let e: u32 = 9 - scale;
        let factor: i128 = if e == 0 {
            1
        } else if e == 1 {
            10
        } else if e == 2 {
            100
        } else if e == 3 {
            1_000
        } else if e == 4 {
            10_000
        } else if e == 5 {
            100_000
        } else if e == 6 {
            1_000_000
        } else if e == 7 {
            10_000_000
        } else if e == 8 {
            100_000_000
        } else {
            1_000_000_000
        };
        proof {
            assert(factor == pow10((9 - scale) as nat)) by {
                reveal_with_fuel(pow10, 10);
            }
            assert(-(UNITS_LIMIT as int) <= (mantissa as int) * (factor as int)
                <= UNITS_LIMIT as int) by (nonlinear_arith)
                requires
                    -MANTISSA_LIMIT <= mantissa <= MANTISSA_LIMIT,
                    1 <= factor <= 1_000_000_000,
                    UNITS_LIMIT == 1_000_000_000_000_000_000_000_000_000i128,
                    MANTISSA_LIMIT == 1_000_000_000_000_000_000i64,
            ;
        }
        let units: i128 = (mantissa as i128) * factor;
        Decimal { units }
    }

    /// The whole number `n`.
    pub fn from_int(n: i64) -> (r: Decimal)
        requires
            -MANTISSA_LIMIT <= n <= MANTISSA_LIMIT,
        ensures
            r@ == n * pow10(9),
            r.wf(),
    {
        Decimal::new(n, 0)
    }

    /// The difference `self - other`.
    pub fn minus(&self, other: &Decimal) -> (r: Decimal)
        requires
            self.wf(),
            other.wf(),
            -(UNITS_LIMIT as int) <= self@ - other@ <= UNITS_LIMIT as int,
        ensures
            r@ == self@ - other@,
            r.wf(),
    {
        Decimal { units: self.units - other.units }
    }

    /// The product `self · other`, rounded to the nearest unit, halves away
    /// from zero.
    pub fn times(&self, other: &Decimal) -> (r: Decimal)
        requires
            self.wf(),
            other.wf(),
            -(UNITS_LIMIT as int) * (UNIT as int) <= self@ * other@
                <= (UNITS_LIMIT as int) * (UNIT as int),
        ensures
            r@ == round_half_away(self@ * other@, UNIT as int),
            r.wf(),
    {
        let p: i128 = self.units * other.units;
        let units: i128 = round_div(p, UNIT);
        proof {
            lemma_round_half_away_bound(p as int, UNIT as int, UNITS_LIMIT as int);
        }
        Decimal { units }
    }

    /// The absolute value.
    pub fn abs(&self) -> (r: Decimal)
        requires
            self.wf(),
        ensures
            r@ == (if self@ >= 0 { self@ } else { -self@ }),
            r.wf(),
    {
        if self.units >= 0 {
            Decimal { units: self.units }
        } else {
            Decimal { units: -self.units }
        }
    }

    /// Whether the amount is exactly zero.
    pub fn is_zero(&self) -> (r: bool)
        ensures
            r == (self@ == 0),
    {
        self.units == 0
    }

    /// Whether `self` is strictly greater than `other`.
    pub fn gt(&self, other: &Decimal) -> (r: bool)
        ensures
            r == (self@ > other@),
    {
        self.units > other.units
    }

    /// The amount rounded to the nearest whole, halves away from zero.
    pub fn round_units(&self) -> (r: i64)
        requires
            self.wf(),
        ensures
            r as int == round_half_away(self@, UNIT as int),
    {
        let units: i128 = round_div(self.units, UNIT);
        proof {
            lemma_round_half_away_bound(self.units as int, UNIT as int, UNITS_LIMIT as int);
        }
        units as i64
    }

    /// The whole part of the amount, truncated toward zero.
    pub fn to_i32(&self) -> (r: i32)
        requires
            self.wf(),
            -2_147_483_648 <= trunc_div(self@, UNIT as int) <= 2_147_483_647,
        ensures
            r as int == trunc_div(self@, UNIT as int),
    {
        if self.units >= 0 {
            let mag: u128 = (self.units as u128) / (UNIT as u128);
            proof {
                lemma_div_is_ordered(0, self.units as int, UNIT as int);
            }
            mag as i32
        } else {
            let mag: u128 = ((-self.units) as u128) / (UNIT as u128);
            proof {
                lemma_div_is_ordered(0, -(self.units as int), UNIT as int);
            }
            -(mag as i128) as i32
        }
    }
}

/// `round_half_away(p, q)` stays within `bound` whenever `p` stays within
/// `bound · q`.
pub proof fn lemma_round_half_away_bound(p: int, q: int, bound: int)
    requires
        0 < q,
        0 <= bound,
        -bound * q <= p <= bound * q,
    ensures
        -bound <= round_half_away(p, q) <= bound,
{
    if p >= 0 {
        assert(2 * p + q <= (2 * q) * bound + q) by (nonlinear_arith)
            requires p <= bound * q,
        ;
        lemma_div_is_ordered(2 * p + q, (2 * q) * bound + q, 2 * q);
        lemma_div_multiples_vanish_fancy(bound, q, 2 * q);
        assert((2 * p + q) / (2 * q) >= 0) by (nonlinear_arith)
            requires p >= 0, q > 0,
        ;
    } else {
        assert(2 * (-p) + q <= (2 * q) * bound + q) by (nonlinear_arith)
            requires -bound * q <= p,
        ;
        lemma_div_is_ordered(2 * (-p) + q, (2 * q) * bound + q, 2 * q);
        lemma_div_multiples_vanish_fancy(bound, q, 2 * q);
        assert((2 * (-p) + q) / (2 * q) >= 0) by (nonlinear_arith)
            requires p < 0, q > 0,
        ;
    }
}

/// The quotient `p / q` rounded to the nearest integer, halves away from
/// zero.
pub fn round_div(p: i128, q: i128) -> (r: i128)
    requires
        0 < q <= UNITS_LIMIT,
        -(UNITS_LIMIT as int) * (UNIT as int) <= p <= (UNITS_LIMIT as int) * (UNIT as int),
    ensures
        r as int == round_half_away(p as int, q as int),
{
    if p >= 0 {
        let n: u128 = (2 * (p as u128) + (q as u128)) / (2 * (q as u128));
        proof {
            lemma_div_is_ordered_by_denominator(2 * (p as int) + (q as int), 2, 2 * (q as int));
        }
        n as i128
    } else {
        let n: u128 = (2 * ((-p) as u128) + (q as u128)) / (2 * (q as u128));
        proof {
            lemma_div_is_ordered_by_denominator(2 * (-(p as int)) + (q as int), 2, 2 * (q as int));
        }
        -(n as i128)
    }
}

} // verus!
