//! Truncating fixed-point shares of an amount and the per-block split of an
//! amount over a block range. Every percentage in the crate goes through
//! [`quota`], every per-thousand through [`quota_per_thousand`].

use crate::parameter::Range;
use sp_runtime::Perbill;
use vstd::arithmetic::div_mod::{
    lemma_div_multiples_vanish_quotient, lemma_fundamental_div_mod, lemma_hoist_over_denominator,
};
use vstd::prelude::*;

verus! {

/// The number of parts that make one whole in the fixed-point representation.
pub const BILLION: u32 = 1_000_000_000;

/// `x`, or `limit` where `x` is above it.
pub open spec fn capped(x: u32, limit: u32) -> u32 {
    if x > limit {
        limit
    } else {
        x
    }
}

/// `percent` hundredths of `amount`, rounded down; a percentage above 100
/// counts as 100.
pub open spec fn spec_quota(percent: u32, amount: u128) -> int {
    (amount * capped(percent, 100)) / 100int
}

/// `perthousand` thousandths of `amount`, rounded down; a value above 1000
/// counts as 1000.
pub open spec fn spec_quota_per_thousand(perthousand: u32, amount: u128) -> int {
    (amount * capped(perthousand, 1000)) / 1000int
}

/// `amount` split evenly over the blocks of `range`, rounded down; 0 for an
/// empty or inverted range.
pub open spec fn spec_pay_per_block(range: Range, amount: u128) -> int {
    if range.end > range.start {
        (amount as int) / (range.end - range.start)
    } else {
        0
    }
}

/// What multiplying `amount` by `parts` billionths gives when the whole and
/// the fractional billions of `amount` are multiplied apart and the
/// fractional product is rounded down.
pub open spec fn pruned_product(parts: u32, amount: u128) -> int {
    let p = capped(parts, BILLION) as int;
    let whole = (amount as int) / (BILLION as int);
    let fraction = (amount as int) % (BILLION as int);
    whole * p + (fraction * p) / (BILLION as int)
}

/// `sp_runtime::Perbill::from_percent`, read back with `deconstruct`: the
/// percentage is capped at 100 and widened to billionths.
#[verifier::external_body]
fn perbill_from_percent(percent: u32) -> (parts: u32)
    ensures
        parts == (capped(percent, 100) * BILLION) / 100int,
{
    Perbill::from_percent(percent).deconstruct()
}

/// `sp_runtime::Perbill::from_perthousand`, read back with `deconstruct`: the
/// value is capped at 1000 and widened to billionths.
#[verifier::external_body]
fn perbill_from_perthousand(perthousand: u32) -> (parts: u32)
    ensures
        parts == (capped(perthousand, 1000) * BILLION) / 1000int,
{
    Perbill::from_perthousand(perthousand).deconstruct()
}

/// `sp_runtime::Perbill::mul_floor` on the ratio that `Perbill::from_parts`
/// builds, which caps `parts` at one billion. The multiplication avoids
/// overflow by computing
/// `(amount / 10^9) * parts + ((amount % 10^9) * parts) / 10^9`, which is what
/// the contract states; that this is `amount * parts / 10^9` rounded down is
/// proved in [`lemma_pruned_product`].
#[verifier::external_body]
fn perbill_mul_floor(parts: u32, amount: u128) -> (product: u128)
    ensures
        product == pruned_product(parts, amount),
{
    Perbill::from_parts(parts).mul_floor(amount)
}

/// Multiplying whole and fractional multiples of `d * k` apart by `m * k`
/// gives the same as `x * m / d` rounded down.
proof fn lemma_pruned_product(x: int, m: int, d: int, k: int)
    requires
        0 <= x,
        0 <= m,
        0 < d,
        0 < k,
    ensures
        (x / (d * k)) * (m * k) + ((x % (d * k)) * (m * k)) / (d * k) == (x * m) / d,
{
    let a = d * k;
    let p = m * k;
    let q = x / a;
    let r = x % a;
    assert(0 < a) by (nonlinear_arith)
        requires
            a == d * k,
            0 < d,
            0 < k,
    ;
    lemma_fundamental_div_mod(x, a);
    lemma_hoist_over_denominator(r * p, q * p, a as nat);
    assert(r * p + (q * p) * a == (x * m) * k) by (nonlinear_arith)
        requires
            x == a * q + r,
            p == m * k,
    ;
    assert(0 <= x * m) by (nonlinear_arith)
        requires
            0 <= x,
            0 <= m,
    ;
    lemma_div_multiples_vanish_quotient(k, x * m, d);
    assert(k * (x * m) == (x * m) * k && k * d == a) by (nonlinear_arith)
        requires
            a == d * k,
    ;
}

/// `percent` hundredths of `amount`, rounded down.
pub fn quota(percent: u32, amount: u128) -> (share: u128)
    ensures
        share == spec_quota(percent, amount),
        share <= amount,
{
    let parts = perbill_from_percent(percent);
    let share = perbill_mul_floor(parts, amount);
    proof {
        let m = capped(percent, 100) as int;
        lemma_pruned_product(amount as int, m, 100, 10_000_000);
        lemma_quota_bounded(percent, amount);
    }
    share
}

/// `perthousand` thousandths of `amount`, rounded down.
pub fn quota_per_thousand(perthousand: u32, amount: u128) -> (share: u128)
    ensures
        share == spec_quota_per_thousand(perthousand, amount),
        share <= amount,
{
    let parts = perbill_from_perthousand(perthousand);
    let share = perbill_mul_floor(parts, amount);
    proof {
        let m = capped(perthousand, 1000) as int;
        lemma_pruned_product(amount as int, m, 1000, 1_000_000);
        lemma_quota_per_thousand_bounded(perthousand, amount);
    }
    share
}

/// `amount` split evenly over the blocks of `range`, rounded down; 0 for an
/// empty or inverted range.
pub fn pay_per_block(range: &Range, amount: u128) -> (pay: u128)
    ensures
        pay == spec_pay_per_block(*range, amount),
{
    if range.end > range.start {
        amount / ((range.end - range.start) as u128)
    } else {
        0
    }
}

/// Whether a stream with the given range pays at `block_number`.
pub fn is_active(range: &Range, block_number: u32) -> (active: bool)
    ensures
        active == range.contains(block_number),
{
    range.start <= block_number && block_number < range.end
}

/// A quota never exceeds the amount it is taken from, is never negative, and
/// is 0 for a percentage of 0.
pub proof fn lemma_quota_bounded(percent: u32, amount: u128)
    ensures
        0 <= spec_quota(percent, amount) <= amount,
        spec_quota(0, amount) == 0,
{
    let m = capped(percent, 100) as int;
    assert(0 <= amount * m <= amount * 100) by (nonlinear_arith)
        requires
            0 <= m <= 100,
            0 <= amount,
    ;
    assert(amount * capped(0, 100) == 0) by (nonlinear_arith)
        requires
            capped(0, 100) == 0,
    ;
}

/// A quota is the amount times the percentage in billionths, divided by one
/// billion and rounded down; likewise for a share in thousandths.
pub proof fn lemma_quota_in_billionths(percent: u32, perthousand: u32, amount: u128)
    ensures
        spec_quota(percent, amount) == (amount * (capped(percent, 100) * 10_000_000))
            / 1_000_000_000int,
        spec_quota_per_thousand(perthousand, amount) == (amount * (capped(perthousand, 1000)
            * 1_000_000)) / 1_000_000_000int,
{
    let h = capped(percent, 100) as int;
    let t = capped(perthousand, 1000) as int;
    assert(0 <= amount * h && amount * (h * 10_000_000) == 10_000_000 * (amount * h))
        by (nonlinear_arith)
        requires
            0 <= h,
            0 <= amount,
    ;
    assert(0 <= amount * t && amount * (t * 1_000_000) == 1_000_000 * (amount * t))
        by (nonlinear_arith)
        requires
            0 <= t,
            0 <= amount,
    ;
    lemma_div_multiples_vanish_quotient(10_000_000, amount * h, 100);
    lemma_div_multiples_vanish_quotient(1_000_000, amount * t, 1000);
}

/// A per-thousand quota never exceeds the amount it is taken from, is never
/// negative, and is 0 for a share of 0.
pub proof fn lemma_quota_per_thousand_bounded(perthousand: u32, amount: u128)
    ensures
        0 <= spec_quota_per_thousand(perthousand, amount) <= amount,
        spec_quota_per_thousand(0, amount) == 0,
{
    let m = capped(perthousand, 1000) as int;
    assert(0 <= amount * m <= amount * 1000) by (nonlinear_arith)
        requires
            0 <= m <= 1000,
            0 <= amount,
    ;
    assert(amount * capped(0, 1000) == 0) by (nonlinear_arith)
        requires
            capped(0, 1000) == 0,
    ;
}

/// Floor division: paying the per-block amount in every block of a non-empty
/// range never pays out more than the amount that was split.
pub proof fn lemma_pay_per_block_floor(range: Range, amount: u128)
    requires
        range.end > range.start,
    ensures
        0 <= spec_pay_per_block(range, amount),
        spec_pay_per_block(range, amount) * (range.end - range.start) <= amount,
{
    let d = (range.end - range.start) as int;
    lemma_fundamental_div_mod(amount as int, d);
    assert((amount as int / d) * d == d * (amount as int / d)) by (nonlinear_arith);
    assert(0 <= amount as int / d) by (nonlinear_arith)
        requires
            0 <= amount,
            0 < d,
    ;
}

} // verus!
