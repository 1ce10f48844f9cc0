use vstd::prelude::*;
use vstd::arithmetic::div_mod::lemma_div_is_ordered;
use vstd::arithmetic::mul::lemma_mul_upper_bound;

verus! {

/// The fixed-point scale of claim tokens: 10^18, the number of smallest
/// units in one whole claim token.
pub const POW10_18: u64 = 1_000_000_000_000_000_000;

/// Basis points per whole: a bps ratio of 10000 pays out exactly the base.
pub const BPS_DENOMINATOR: u64 = 10_000;

/// Claim tokens minted for a stablecoin deposit:
/// floor(amount · 10^18 / price). The truncation is deliberate; fractions
/// below the smallest claim-token unit are forfeited, never rounded up.
pub open spec fn tokens_for_deposit(amount: u64, price: u64) -> int {
    (amount as int) * (POW10_18 as int) / (price as int)
}

/// Stablecoin value of a claim-token amount at the pool's fixed price:
/// floor(tokens · price / 10^18).
pub open spec fn stable_value(tokens: u64, price: u64) -> int {
    (tokens as int) * (price as int) / (POW10_18 as int)
}

/// Scenario payout: the stablecoin value of the burned tokens scaled by a
/// basis-point ratio, floor(floor(tokens · price / 10^18) · bps / 10000).
pub open spec fn scenario_payout(tokens: u64, price: u64, bps: u16) -> int {
    stable_value(tokens, price) * (bps as int) / (BPS_DENOMINATOR as int)
}

/// Converts a deposit to the claim tokens it buys, multiplying before
/// dividing in 128-bit arithmetic so the product cannot overflow.
pub fn compute_tokens_for_deposit(amount: u64, price: u64) -> (t: u64)
    requires
        price > 0,
        tokens_for_deposit(amount, price) <= u64::MAX,
    ensures
        t as int == tokens_for_deposit(amount, price),
{
    proof {
        lemma_mul_upper_bound(amount as int, u64::MAX as int, POW10_18 as int, POW10_18 as int);
    }
    let wide: u128 = (amount as u128) * (POW10_18 as u128);
    (wide / (price as u128)) as u64
}

/// Converts a claim-token amount back to its stablecoin value, multiplying
/// before dividing in 128-bit arithmetic so the product cannot overflow.
pub fn compute_stable_value(tokens: u64, price: u64) -> (v: u64)
    requires
        stable_value(tokens, price) <= u64::MAX,
    ensures
        v as int == stable_value(tokens, price),
{
    proof {
        lemma_mul_upper_bound(tokens as int, u64::MAX as int, price as int, u64::MAX as int);
    }
    let wide: u128 = (tokens as u128) * (price as u128);
    (wide / (POW10_18 as u128)) as u64
}

/// Computes a scenario payout. The unscaled stablecoin value is kept at
/// 128 bits between the two divisions: it may exceed the narrow width even
/// when the scaled payout fits.
pub fn compute_scenario_payout(tokens: u64, price: u64, bps: u16) -> (p: u64)
    requires
        scenario_payout(tokens, price, bps) <= u64::MAX,
    ensures
        p as int == scenario_payout(tokens, price, bps),
{
    proof {
        lemma_mul_upper_bound(tokens as int, u64::MAX as int, price as int, u64::MAX as int);
        lemma_div_is_ordered(
            (tokens as int) * (price as int),
            (u64::MAX as int) * (u64::MAX as int),
            POW10_18 as int,
        );
        lemma_mul_upper_bound(
            stable_value(tokens, price),
            (u64::MAX as int) * (u64::MAX as int) / (POW10_18 as int),
            bps as int,
            u16::MAX as int,
        );
    }
    let wide: u128 = (tokens as u128) * (price as u128);
    let base: u128 = wide / (POW10_18 as u128);
    (base * (bps as u128) / (BPS_DENOMINATOR as u128)) as u64
}

} // verus!
