use vstd::arithmetic::div_mod::{lemma_div_is_ordered, lemma_div_multiples_vanish};
use vstd::arithmetic::mul::{lemma_mul_inequality, lemma_mul_is_commutative, lemma_mul_upper_bound};
use vstd::prelude::*;

verus! {

/// Basis-point denominator: 10000 bps is the whole.
pub const BPS_DENOMINATOR: u64 = 10000;

/// Per-submission fee growth, in basis points of the old fee (about +0.78%).
pub const FEE_GROWTH_BPS: u64 = 10078;

/// Cap on the marketing share: 2500 bps, one quarter.
pub const MAX_MARKETING_BPS: u16 = 2500;

/// The marketing side of a fee split: `floor(fee * bps / 10000)`.
pub open spec fn marketing_share(fee: u64, bps: u16) -> int {
    fee * bps / (BPS_DENOMINATOR as int)
}

/// The fee demanded after one more submission:
/// `min(fee_cap, floor(fee * 10078 / 10000))`.
pub open spec fn escalated_fee(fee: u64, fee_cap: u64) -> int {
    let raw = fee * FEE_GROWTH_BPS / (BPS_DENOMINATOR as int);
    if raw > fee_cap {
        fee_cap as int
    } else {
        raw
    }
}

/// The marketing share never exceeds the fee while the share is at most the
/// whole, so the prize side of the split is never negative.
pub proof fn lemma_marketing_share_bounds(fee: u64, bps: u16)
    requires
        bps <= BPS_DENOMINATOR,
    ensures
        0 <= marketing_share(fee, bps) <= fee,
{
    let den = BPS_DENOMINATOR as int;
    lemma_mul_inequality(bps as int, den, fee as int);
    lemma_mul_is_commutative(bps as int, fee as int);
    lemma_mul_is_commutative(den, fee as int);
    lemma_div_is_ordered(fee * bps, fee * den, den);
    lemma_div_multiples_vanish(fee as int, den);
    lemma_mul_is_commutative(den, fee as int);
    assert(fee * den / den == fee);
    assert(0 * den <= fee * bps) by {
        lemma_mul_inequality(0, fee as int, bps as int);
        lemma_mul_is_commutative(fee as int, bps as int);
    }
    lemma_div_is_ordered(0 * den, fee * bps, den);
}

/// Escalation never lowers a fee that sits within its cap, and never lifts
/// it beyond the cap.
pub proof fn lemma_escalated_fee_bounds(fee: u64, fee_cap: u64)
    requires
        fee <= fee_cap,
    ensures
        fee <= escalated_fee(fee, fee_cap) <= fee_cap,
{
    let den = BPS_DENOMINATOR as int;
    lemma_mul_inequality(den, FEE_GROWTH_BPS as int, fee as int);
    lemma_mul_is_commutative(den, fee as int);
    lemma_mul_is_commutative(FEE_GROWTH_BPS as int, fee as int);
    lemma_div_is_ordered(fee * den, fee * FEE_GROWTH_BPS, den);
    lemma_div_multiples_vanish(fee as int, den);
    assert(fee * den / den == fee);
}

/// Splits a fee into its marketing share and its prize share.
///
/// The two shares always add back up to the fee exactly: the marketing side
/// is rounded down and the prize side takes the remainder.
pub fn compute_split(current_fee: u64, marketing_bps: u16) -> (r: (u64, u64))
    requires
        marketing_bps <= BPS_DENOMINATOR,
    ensures
        r.0 == marketing_share(current_fee, marketing_bps),
        r.1 == current_fee - marketing_share(current_fee, marketing_bps),
        r.0 + r.1 == current_fee,
{
    proof {
        lemma_marketing_share_bounds(current_fee, marketing_bps);
        lemma_mul_upper_bound(current_fee as int, u64::MAX as int, marketing_bps as int, u16::MAX as int);
    }
    let wide: u128 = (current_fee as u128) * (marketing_bps as u128);
    let marketing_fee: u64 = (wide / (BPS_DENOMINATOR as u128)) as u64;
    let prize_fee: u64 = current_fee - marketing_fee;
    (marketing_fee, prize_fee)
}

/// Escalates the fee for the next submission, capping it at `fee_cap`.
///
/// The quotient is taken at 128-bit width, so the escalation itself cannot
/// overflow; the cap is applied before narrowing back to 64 bits.
pub fn escalate(current_fee: u64, fee_cap: u64) -> (r: u64)
    ensures
        r == escalated_fee(current_fee, fee_cap),
        current_fee <= fee_cap ==> current_fee <= r <= fee_cap,
{
    proof {
        if current_fee <= fee_cap {
            lemma_escalated_fee_bounds(current_fee, fee_cap);
        }
        lemma_mul_upper_bound(current_fee as int, u64::MAX as int, FEE_GROWTH_BPS as int, FEE_GROWTH_BPS as int);
    }
    let wide: u128 = (current_fee as u128) * (FEE_GROWTH_BPS as u128) / (BPS_DENOMINATOR as u128);
    if wide > fee_cap as u128 {
        fee_cap
    } else {
        wide as u64
    }
}

} // verus!
