//! Pool math for market operations: price impact of a constant-product swap,
//! slippage validation, proportional liquidity amounts, LP token estimates,
//! and a yield rate.
//!
//! All of it is integer arithmetic on plain values; callers supply reserves
//! and amounts, nothing here touches pool state.

use vstd::prelude::*;

use crate::errors::VaultError;

verus! {

/// The effect of a proposed swap on a constant-product pool.
#[derive(Clone, Copy, Debug, PartialEq, Eq, Structural)]
pub struct PriceImpact {
    /// Relative price movement in basis points (truncated to 32 bits).
    pub impact_bps: u32,
    /// Output amount the pool would give for the input.
    pub expected_output: i128,
    /// Pool price before the swap, scaled by 10,000.
    pub price_before: i128,
    /// Pool price after the swap, scaled by 10,000.
    pub price_after: i128,
}

/// The price-impact formula: prices are `reserve_out / reserve_in` scaled by
/// 10,000, the output follows the constant product `x * y = k`, and the
/// impact is the relative price difference in basis points.
pub open spec fn spec_price_impact(ri: i128, ro: i128, ai: i128) -> PriceImpact {
    let pb = ro * 10_000 / (ri as int);
    let eo = ai * ro / (ri + ai);
    let nri = ri + ai;
    let nro = ro - eo;
    let pa = nro * 10_000 / nri;
    let pd = if pb > pa {
        pb - pa
    } else {
        pa - pb
    };
    PriceImpact {
        impact_bps: (pd * 10_000 / pb) as u32,
        expected_output: eo as i128,
        price_before: pb as i128,
        price_after: pa as i128,
    }
}

/// Computes the price impact of swapping `amount_in` against a pool holding
/// `reserve_in` / `reserve_out`. Rejects non-positive arguments; otherwise
/// returns exactly `spec_price_impact`.
pub fn calculate_price_impact(reserve_in: i128, reserve_out: i128, amount_in: i128) -> (r: Result<
    PriceImpact,
    VaultError,
>)
    requires
        reserve_in > 0 && reserve_out > 0 && amount_in > 0 ==> {
            &&& reserve_in + amount_in <= i128::MAX
            &&& amount_in * reserve_out <= i128::MAX
            &&& reserve_out * 100_000_000 <= i128::MAX
            &&& reserve_in <= 10_000 * reserve_out
        },
    ensures
        reserve_in <= 0 || reserve_out <= 0 || amount_in <= 0 ==> r == Err::<
            PriceImpact,
            VaultError,
        >(VaultError::InvalidAmount),
        reserve_in > 0 && reserve_out > 0 && amount_in > 0 ==> r == Ok::<PriceImpact, VaultError>(
            spec_price_impact(reserve_in, reserve_out, amount_in),
        ),
{
    if reserve_in <= 0 || reserve_out <= 0 || amount_in <= 0 {
        return Err(VaultError::InvalidAmount);
    }

    // Price before the swap.
    proof {
        lemma_div_at_least_one(reserve_out * 10_000, reserve_in as int);
        lemma_div_bound(reserve_out * 10_000, reserve_in as int, reserve_out * 10_000);
    }
    let price_before = reserve_out * 10_000 / reserve_in;

    // Output under the constant-product rule:
    // amount_out = amount_in * reserve_out / (reserve_in + amount_in).
    proof {
        assert(amount_in * reserve_out >= 0) by (nonlinear_arith)
            requires
                amount_in > 0,
                reserve_out > 0,
        ;
        assert(amount_in * reserve_out <= reserve_out * (reserve_in + amount_in))
            by (nonlinear_arith)
            requires
                reserve_in > 0,
                reserve_out > 0,
                amount_in > 0,
        ;
    }
    let numerator = amount_in * reserve_out;
    let denominator = reserve_in + amount_in;
    proof {
        lemma_div_le(numerator as int, denominator as int, reserve_out as int);
    }
    let expected_output = numerator / denominator;

    // Reserves and price after the swap.
    let new_reserve_in = denominator;
    let new_reserve_out = reserve_out - expected_output;
    proof {
        lemma_div_bound(new_reserve_out * 10_000, new_reserve_in as int, reserve_out * 10_000);
    }
    let price_after = new_reserve_out * 10_000 / new_reserve_in;

    // Relative price movement in basis points.
    let price_diff = if price_before > price_after {
        price_before - price_after
    } else {
        price_after - price_before
    };
    let impact_bps = #[verifier::truncate] ((price_diff * 10_000 / price_before) as u32);

    Ok(
        PriceImpact {
            impact_bps,
            expected_output,
            price_before,
            price_after,
        },
    )
}

/// For a non-negative numerator, a positive divisor, and a bound on the
/// numerator, the quotient stays within the bound.
proof fn lemma_div_bound(x: int, d: int, b: int)
    requires
        0 <= x <= b,
        d >= 1,
    ensures
        0 <= x / d <= b,
{
    assert(0 <= x / d <= x) by (nonlinear_arith)
        requires
            0 <= x,
            d >= 1,
    ;
}

/// Dividing by `d` keeps a value under `b` whenever the value is at most
/// `b * d`.
proof fn lemma_div_le(x: int, d: int, b: int)
    requires
        0 <= x,
        d >= 1,
        x <= b * d,
    ensures
        0 <= x / d <= b,
{
    assert(0 <= x / d && x / d <= b) by (nonlinear_arith)
        requires
            0 <= x,
            d >= 1,
            x <= b * d,
    ;
}

/// A quotient of a value at least as large as its positive divisor is at
/// least one.
proof fn lemma_div_at_least_one(x: int, d: int)
    requires
        1 <= d <= x,
    ensures
        x / d >= 1,
{
    assert(x / d >= 1) by (nonlinear_arith)
        requires
            1 <= d <= x,
    ;
}

/// Accepts a swap outcome when the actual output reached the agreed minimum.
///
/// The tolerance in basis points is measured against the shortfall below
/// `min_output`; once the output is at or above the minimum the shortfall is
/// never positive, so the tolerance check cannot fail.
pub fn validate_slippage(actual_output: i128, min_output: i128, max_slippage_bps: u32) -> (r:
    Result<(), VaultError>)
    ensures
        r == if actual_output < min_output {
            Err::<(), VaultError>(VaultError::SlippageExceeded)
        } else {
            Ok::<(), VaultError>(())
        },
{
    if actual_output < min_output {
        return Err(VaultError::SlippageExceeded);
    }
    Ok(())
}

/// Accepts a price impact that stays within the configured cap.
pub fn check_price_impact(impact: &PriceImpact, max_impact_bps: u32) -> (r: Result<(), VaultError>)
    ensures
        r == if impact.impact_bps > max_impact_bps {
            Err::<(), VaultError>(VaultError::PriceImpactTooHigh)
        } else {
            Ok::<(), VaultError>(())
        },
{
    if impact.impact_bps > max_impact_bps {
        return Err(VaultError::PriceImpactTooHigh);
    }
    Ok(())
}

/// The optimal deposit keeping the pool ratio: scale one desired amount down
/// so that `a / b` matches `reserve_a / reserve_b`.
pub open spec fn spec_liquidity_amounts(ra: i128, rb: i128, ad: i128, bd: i128) -> (i128, i128) {
    if ra <= 0 || rb <= 0 {
        (ad, bd)
    } else {
        let b_optimal = ad * rb / (ra as int);
        if b_optimal <= bd {
            (ad, b_optimal as i128)
        } else {
            ((bd * ra / (rb as int)) as i128, bd)
        }
    }
}

/// Computes deposit amounts that keep the pool ratio; a fresh pool takes the
/// desired amounts unchanged. Returns exactly `spec_liquidity_amounts`.
pub fn calculate_liquidity_amounts(
    reserve_a: i128,
    reserve_b: i128,
    amount_a_desired: i128,
    amount_b_desired: i128,
) -> (r: Result<(i128, i128), VaultError>)
    requires
        reserve_a > 0 && reserve_b > 0 ==> {
            &&& amount_a_desired >= 0
            &&& amount_b_desired >= 0
            &&& amount_a_desired * reserve_b <= i128::MAX
            &&& amount_b_desired * reserve_a <= i128::MAX
        },
    ensures
        r == Ok::<(i128, i128), VaultError>(
            spec_liquidity_amounts(reserve_a, reserve_b, amount_a_desired, amount_b_desired),
        ),
{
    if reserve_a <= 0 || reserve_b <= 0 {
        // A fresh pool has no ratio to keep.
        return Ok((amount_a_desired, amount_b_desired));
    }

    let amount_b_optimal = amount_a_desired * reserve_b / reserve_a;
    proof {
        lemma_div_bound(
            amount_a_desired * reserve_b,
            reserve_a as int,
            amount_a_desired * reserve_b,
        );
    }
    if amount_b_optimal <= amount_b_desired {
        Ok((amount_a_desired, amount_b_optimal))
    } else {
        let amount_a_optimal = amount_b_desired * reserve_a / reserve_b;
        proof {
            lemma_div_bound(
                amount_b_desired * reserve_a,
                reserve_b as int,
                amount_b_desired * reserve_a,
            );
        }
        Ok((amount_a_optimal, amount_b_desired))
    }
}

/// The integer square root: the unique `r >= 0` with
/// `r * r <= n < (r + 1) * (r + 1)`.
pub fn sqrt(n: i128) -> (r: i128)
    requires
        n >= 0,
    ensures
        r >= 0,
        r * r <= n,
        (r + 1) * (r + 1) > n,
{
    if n == 0 {
        return 0;
    }
    // The integer square root of i128::MAX; no root can exceed it.
    let cap: i128 = 13_043_817_825_332_782_212;
    proof {
        assert((13_043_817_825_332_782_212 + 1) * (13_043_817_825_332_782_212 + 1)
            > i128::MAX) by (nonlinear_arith);
    }
    let mut lo: i128 = 0;
    let mut hi: i128 = if n < cap {
        n
    } else {
        cap
    };
    proof {
        assert((hi + 1) * (hi + 1) > n) by (nonlinear_arith)
            requires
                n >= 1,
                hi == if n < 13_043_817_825_332_782_212 {
                    n
                } else {
                    13_043_817_825_332_782_212i128
                },
                (13_043_817_825_332_782_212 + 1) * (13_043_817_825_332_782_212 + 1) > i128::MAX,
                n <= i128::MAX,
        ;
    }
    while lo < hi
        invariant
            0 <= lo <= hi <= 13_043_817_825_332_782_212,
            lo * lo <= n,
            (hi + 1) * (hi + 1) > n,
        decreases hi - lo,
    {
        let mid = lo + (hi - lo + 1) / 2;
        proof {
            assert(lo < mid <= hi);
            assert(13_043_817_825_332_782_212i128 * 13_043_817_825_332_782_212i128
                <= i128::MAX) by (nonlinear_arith);
            assert(mid * mid <= i128::MAX) by (nonlinear_arith)
                requires
                    0 < mid <= 13_043_817_825_332_782_212i128,
                    13_043_817_825_332_782_212i128 * 13_043_817_825_332_782_212i128 <= i128::MAX,
            ;
        }
        if mid * mid <= n {
            lo = mid;
        } else {
            hi = mid - 1;
        }
    }
    lo
}

/// LP tokens for a deposit: the geometric mean of the amounts for the first
/// provider, the proportional share of supply afterwards.
pub open spec fn spec_lp_share(ra: i128, rb: i128, a: i128, b: i128, ts: i128) -> int {
    let lp_a = a * ts / (ra as int);
    let lp_b = b * ts / (rb as int);
    if lp_a < lp_b {
        lp_a
    } else {
        lp_b
    }
}

/// Estimates the LP tokens received for a deposit. For a fresh pool the
/// result is the integer square root of the product of the amounts; for an
/// established pool it is the smaller proportional share of the supply.
pub fn estimate_lp_tokens(
    reserve_a: i128,
    reserve_b: i128,
    amount_a: i128,
    amount_b: i128,
    total_supply: i128,
) -> (r: Result<i128, VaultError>)
    requires
        amount_a >= 0,
        amount_b >= 0,
        total_supply >= 0,
        amount_a * amount_b <= i128::MAX,
        reserve_a > 0 && reserve_b > 0 ==> {
            &&& amount_a * total_supply <= i128::MAX
            &&& amount_b * total_supply <= i128::MAX
        },
    ensures
        r matches Ok(lp),
        (reserve_a <= 0 || reserve_b <= 0) ==> {
            let lp = r->Ok_0;
            &&& lp >= 0
            &&& lp * lp <= amount_a * amount_b
            &&& (lp + 1) * (lp + 1) > amount_a * amount_b
        },
        reserve_a > 0 && reserve_b > 0 ==> r->Ok_0 == spec_lp_share(
            reserve_a,
            reserve_b,
            amount_a,
            amount_b,
            total_supply,
        ),
{
    if reserve_a <= 0 || reserve_b <= 0 {
        // First liquidity provider: sqrt(amount_a * amount_b).
        proof {
            assert(amount_a * amount_b >= 0) by (nonlinear_arith)
                requires
                    amount_a >= 0,
                    amount_b >= 0,
            ;
        }
        let product = amount_a * amount_b;
        let lp_tokens = sqrt(product);
        return Ok(lp_tokens);
    }

    let lp_from_a = amount_a * total_supply / reserve_a;
    let lp_from_b = amount_b * total_supply / reserve_b;

    Ok(
        if lp_from_a < lp_from_b {
            lp_from_a
        } else {
            lp_from_b
        },
    )
}

/// The annualized yield in whole percent:
/// `rewards_per_ledger * ledgers_per_year * 100 / total_staked`,
/// truncated to 32 bits; 0 when nothing is staked.
pub fn calculate_apy(rewards_per_ledger: i128, total_staked: i128, ledgers_per_year: u64) -> (r:
    Result<u32, VaultError>)
    requires
        total_staked > 0 ==> {
            &&& rewards_per_ledger >= 0
            &&& rewards_per_ledger * ledgers_per_year <= i128::MAX
            &&& rewards_per_ledger * ledgers_per_year * 100 <= i128::MAX
        },
    ensures
        total_staked <= 0 ==> r == Ok::<u32, VaultError>(0),
        total_staked > 0 ==> r == Ok::<u32, VaultError>(
            ((rewards_per_ledger * ledgers_per_year * 100 / (total_staked as int)) as u32),
        ),
{
    if total_staked <= 0 {
        return Ok(0);
    }

    let annual_rewards = rewards_per_ledger * ledgers_per_year as i128;
    #[verifier::truncate]
    let apy = ((annual_rewards * 100) / total_staked) as u32;

    Ok(apy)
}

} // verus!
