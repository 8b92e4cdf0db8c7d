//! Pool-share issuance and redemption math.
//!
//! Minting and redemption are independent of the swap engine: the external
//! collaborator invokes them directly on deposit and withdraw paths.

use vstd::prelude::*;
use vstd::arithmetic::div_mod::{lemma_div_is_ordered, lemma_div_multiples_vanish};
use vstd::arithmetic::mul::{lemma_mul_inequality, lemma_mul_is_commutative};
use vstd::math::min;

verus! {

/// `r` is the integer square root of `p`, rounded down.
pub open spec fn spec_is_floor_sqrt(p: int, r: int) -> bool {
    r * r <= p < (r + 1) * (r + 1)
}

/// Integer square root of `p`, rounded down, by binary search on the
/// result.
pub fn floor_sqrt(p: u128) -> (r: u64)
    ensures
        spec_is_floor_sqrt(p as int, r as int),
{
    let mut lo: u64 = 0;
    let mut hi: u64 = u64::MAX;
    proof {
        // u64::MAX squared, plus twice u64::MAX, exceeds any u128
        assert((u64::MAX + 1) * (u64::MAX + 1) > u128::MAX) by (nonlinear_arith);
    }
    while lo < hi
        invariant
            lo <= hi,
            lo * lo <= p,
            p < (hi + 1) * (hi + 1),
        decreases hi - lo,
    {
        let mid = hi - (hi - lo) / 2;
        proof {
            assert(lo < mid <= hi);
            assert(mid * mid <= u128::MAX) by (nonlinear_arith)
                requires mid <= u64::MAX,
            ;
        }
        let sq = (mid as u128) * (mid as u128);
        if sq <= p {
            lo = mid;
        } else {
            hi = mid - 1;
        }
    }
    lo
}

/// The amount of pool-share (LP) tokens to mint for a deposit.
///
/// For the first deposit (`total_lp_supply == 0`) this is
/// `floor(sqrt(token_a_amount * token_b_amount))`, which establishes the
/// initial price. Afterwards it is the minimum of the two proportional
/// shares `floor(amount * supply / reserve)`, computed in double-width
/// arithmetic; taking the minimum protects existing holders from a lopsided
/// deposit diluting the pool ratio.
pub fn deposit_lp(
    token_a_amount: u64,
    token_b_amount: u64,
    total_lp_supply: u64,
    token_a_reserve: u64,
    token_b_reserve: u64,
) -> (r: u64)
    requires
        total_lp_supply != 0 ==> {
            &&& token_a_reserve >= 1
            &&& token_b_reserve >= 1
            // the minted amount must fit the native width of the return
            &&& min(
                (token_a_amount * total_lp_supply) / (token_a_reserve as int),
                (token_b_amount * total_lp_supply) / (token_b_reserve as int),
            ) <= u64::MAX
        },
    ensures
        total_lp_supply == 0 ==> spec_is_floor_sqrt(token_a_amount * token_b_amount, r as int),
        total_lp_supply != 0 ==> r == min(
            (token_a_amount * total_lp_supply) / (token_a_reserve as int),
            (token_b_amount * total_lp_supply) / (token_b_reserve as int),
        ),
{
    proof {
        assert(token_a_amount * token_b_amount <= u128::MAX
            && token_a_amount * total_lp_supply <= u128::MAX
            && token_b_amount * total_lp_supply <= u128::MAX) by (nonlinear_arith)
            requires
                token_a_amount <= u64::MAX,
                token_b_amount <= u64::MAX,
                total_lp_supply <= u64::MAX,
        ;
    }
    if total_lp_supply == 0 {
        floor_sqrt((token_a_amount as u128) * (token_b_amount as u128))
    } else {
        let token_a_lp = ((token_a_amount as u128) * (total_lp_supply as u128)) / (token_a_reserve as u128);
        let token_b_lp = ((token_b_amount as u128) * (total_lp_supply as u128)) / (token_b_reserve as u128);
        let minted = if token_a_lp <= token_b_lp {
            token_a_lp
        } else {
            token_b_lp
        };
        minted as u64
    }
}

/// The amounts of each token to pay out for burning `lp_tokens` pool-share
/// tokens: the proportional share `floor(lp_tokens * reserve / supply)` of
/// each reserve, computed in double-width arithmetic, or `(0, 0)` when the
/// supply is zero.
pub fn withdraw_lp(
    lp_tokens: u64,
    total_lp_supply: u64,
    token_a_reserve: u64,
    token_b_reserve: u64,
) -> (r: (u64, u64))
    requires
        // each payout must fit the native width of the return
        total_lp_supply != 0 ==> {
            &&& (lp_tokens * token_a_reserve) / (total_lp_supply as int) <= u64::MAX
            &&& (lp_tokens * token_b_reserve) / (total_lp_supply as int) <= u64::MAX
        },
    ensures
        total_lp_supply == 0 ==> r == (0u64, 0u64),
        total_lp_supply != 0 ==> {
            &&& r.0 == (lp_tokens * token_a_reserve) / (total_lp_supply as int)
            &&& r.1 == (lp_tokens * token_b_reserve) / (total_lp_supply as int)
        },
        // redeeming at most the whole share supply never pays out more than
        // the reserves hold
        lp_tokens <= total_lp_supply ==> r.0 <= token_a_reserve && r.1 <= token_b_reserve,
{
    if total_lp_supply == 0 {
        return (0, 0);
    }
    proof {
        assert(lp_tokens * token_a_reserve <= u128::MAX
            && lp_tokens * token_b_reserve <= u128::MAX) by (nonlinear_arith)
            requires
                lp_tokens <= u64::MAX,
                token_a_reserve <= u64::MAX,
                token_b_reserve <= u64::MAX,
        ;
        if lp_tokens <= total_lp_supply {
            lemma_payout_bounded_by_reserve(lp_tokens as int, token_a_reserve as int, total_lp_supply as int);
            lemma_payout_bounded_by_reserve(lp_tokens as int, token_b_reserve as int, total_lp_supply as int);
        }
    }
    let token_a_amount = ((lp_tokens as u128) * (token_a_reserve as u128)) / (total_lp_supply as u128);
    let token_b_amount = ((lp_tokens as u128) * (token_b_reserve as u128)) / (total_lp_supply as u128);
    (token_a_amount as u64, token_b_amount as u64)
}

/// Burning at most the whole share supply pays out at most the whole
/// reserve: `floor(lp * reserve / supply) <= reserve` when `lp <= supply`.
pub proof fn lemma_payout_bounded_by_reserve(lp: int, reserve: int, supply: int)
    requires
        0 <= lp <= supply,
        reserve >= 0,
        supply >= 1,
    ensures
        (lp * reserve) / supply <= reserve,
{
    lemma_mul_inequality(lp, supply, reserve);
    lemma_div_is_ordered(lp * reserve, supply * reserve, supply);
    lemma_mul_is_commutative(supply, reserve);
    lemma_div_multiples_vanish(reserve, supply);
}

} // verus!
