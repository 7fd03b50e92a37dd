//! Exact fee-per-size ratios.
//!
//! A rate is the quotient of a fee by a (possibly adjusted) size, kept as the
//! integer pair `num / den` instead of being collapsed to a float.  A
//! well-formed rate has `den >= 1`, so its value is always a finite real
//! number and the value comparison below is total: there is no analogue of
//! `NaN` to poison an ordering.

use std::cmp::Ordering;
use vstd::prelude::*;

verus! {

/// The exact quotient `num / den` of a fee by a size.
#[derive(Clone, Copy, Debug, PartialEq, Eq, Structural)]
pub struct FeeRate {
    pub num: u64,
    pub den: u64,
}

impl FeeRate {
    /// A rate stands for a finite real number exactly when its denominator
    /// is positive.
    pub open spec fn wf(self) -> bool {
        self.den >= 1
    }
}

/// The rate of a zero fee: the value every item starts from before its
/// ancestor aggregate is known.
pub open spec fn zero_rate() -> FeeRate {
    FeeRate { num: 0, den: 1 }
}

/// Value comparison by cross-multiplication: `a.num / a.den < b.num / b.den`.
pub open spec fn rate_lt(a: FeeRate, b: FeeRate) -> bool {
    a.num * b.den < b.num * a.den
}

/// Value equality by cross-multiplication: `1/2` and `2/4` are the same rate.
pub open spec fn rate_eqv(a: FeeRate, b: FeeRate) -> bool {
    a.num * b.den == b.num * a.den
}

/// Value comparison `a.num / a.den <= b.num / b.den`.
pub open spec fn rate_le(a: FeeRate, b: FeeRate) -> bool {
    a.num * b.den <= b.num * a.den
}

/// The smaller of two rates by value; `a` is preferred on a tie.
pub open spec fn spec_rate_min(a: FeeRate, b: FeeRate) -> FeeRate {
    if rate_le(a, b) {
        a
    } else {
        b
    }
}

/// How two rate values stand to one another, as an `Ordering`.
pub open spec fn spec_rate_cmp(a: FeeRate, b: FeeRate) -> Ordering {
    if rate_lt(a, b) {
        Ordering::Less
    } else if rate_eqv(a, b) {
        Ordering::Equal
    } else {
        Ordering::Greater
    }
}

/// A fee over a size, with a zero size read as one so that the quotient is
/// always defined.
pub open spec fn spec_calc_fee_rate(fee: u64, vsize: int) -> FeeRate {
    FeeRate { num: fee, den: if vsize == 0 { 1 } else { vsize as u64 } }
}

proof fn lemma_cross_products_fit(a: FeeRate, b: FeeRate)
    by (nonlinear_arith)
    ensures
        a.num * b.den <= u128::MAX,
        b.num * a.den <= u128::MAX,
{
}

/// Compares two rates by value.
pub fn rate_cmp(a: &FeeRate, b: &FeeRate) -> (r: Ordering)
    ensures
        r == spec_rate_cmp(*a, *b),
{
    proof {
        lemma_cross_products_fit(*a, *b);
    }
    let x: u128 = (a.num as u128) * (b.den as u128);
    let y: u128 = (b.num as u128) * (a.den as u128);
    if x < y {
        Ordering::Less
    } else if x == y {
        Ordering::Equal
    } else {
        Ordering::Greater
    }
}

/// Whether two rates have the same value.
pub fn rate_eq(a: &FeeRate, b: &FeeRate) -> (r: bool)
    ensures
        r == rate_eqv(*a, *b),
{
    proof {
        lemma_cross_products_fit(*a, *b);
    }
    let x: u128 = (a.num as u128) * (b.den as u128);
    let y: u128 = (b.num as u128) * (a.den as u128);
    x == y
}

/// The smaller of two rates by value, preferring `a` on a tie.
pub fn rate_min(a: FeeRate, b: FeeRate) -> (r: FeeRate)
    ensures
        r == spec_rate_min(a, b),
{
    proof {
        lemma_cross_products_fit(a, b);
    }
    let x: u128 = (a.num as u128) * (b.den as u128);
    let y: u128 = (b.num as u128) * (a.den as u128);
    if x <= y {
        a
    } else {
        b
    }
}

/// Builds the exact rate of `fee` over `vsize`, reading a zero size as one.
pub fn calc_fee_rate(fee: u64, vsize: u32) -> (r: FeeRate)
    ensures
        r == spec_calc_fee_rate(fee, vsize as int),
        r.wf(),
{
    FeeRate { num: fee, den: if vsize == 0 { 1 } else { vsize as u64 } }
}

/// The strict value order on well-formed rates is transitive.
pub proof fn lemma_rate_lt_trans(a: FeeRate, b: FeeRate, c: FeeRate)
    by (nonlinear_arith)
    requires
        a.wf(),
        b.wf(),
        c.wf(),
        rate_lt(a, b),
        rate_lt(b, c),
    ensures
        rate_lt(a, c),
{
}

/// Value equality of well-formed rates is transitive.
pub proof fn lemma_rate_eqv_trans(a: FeeRate, b: FeeRate, c: FeeRate)
    by (nonlinear_arith)
    requires
        a.wf(),
        b.wf(),
        c.wf(),
        rate_eqv(a, b),
        rate_eqv(b, c),
    ensures
        rate_eqv(a, c),
{
}

/// A strictly smaller value stays strictly smaller than anything of equal
/// value, on either side.
pub proof fn lemma_rate_lt_eqv(a: FeeRate, b: FeeRate, c: FeeRate)
    by (nonlinear_arith)
    requires
        a.wf(),
        b.wf(),
        c.wf(),
    ensures
        rate_lt(a, b) && rate_eqv(b, c) ==> rate_lt(a, c),
        rate_eqv(a, b) && rate_lt(b, c) ==> rate_lt(a, c),
{
}

} // verus!
