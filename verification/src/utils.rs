//! Fee calculation, the constant-product swap engine, and the
//! ratio-rebalance solver.
//!
//! All monetary quantities are non-negative integers; intermediate products
//! are computed in `u128` and every narrowing or fallible step is checked,
//! never assumed.

use vstd::prelude::*;
use vstd::arithmetic::div_mod::{
    lemma_div_is_ordered, lemma_fundamental_div_mod, lemma_fundamental_div_mod_converse,
};
use vstd::arithmetic::mul::{lemma_mul_inequality, lemma_mul_is_commutative};
use vstd::math::abs;

use crate::constants::MAX_PERCENTAGE;
use crate::state::{RebalanceResult, SwapResult};

verus! {

/// Ceiling of `amount * numerator / denominator`, as used for fees charged
/// to the user.
pub open spec fn spec_ceil_div(amount: int, numerator: int, denominator: int) -> int {
    (amount * numerator + denominator - 1) / denominator
}

/// Floor of `amount * numerator / denominator`, as used for amounts paid
/// out and for the protocol share of a fee.
pub open spec fn spec_floor_div(amount: int, numerator: int, denominator: int) -> int {
    (amount * numerator) / denominator
}

/// The trade fee charged on a gross input of `amount` at `trade_fee_rate`
/// (a rate over [`MAX_PERCENTAGE`]), rounded up so the pool never
/// under-collects.
pub open spec fn spec_trade_fee(amount: int, trade_fee_rate: int) -> int {
    spec_ceil_div(amount, trade_fee_rate, MAX_PERCENTAGE as int)
}

/// The protocol share of a trade fee of `amount` at `protocol_fee_rate`
/// (a rate over [`MAX_PERCENTAGE`]), rounded down so it never exceeds the
/// trade fee.
pub open spec fn spec_protocol_fee(amount: int, protocol_fee_rate: int) -> int {
    spec_floor_div(amount, protocol_fee_rate, MAX_PERCENTAGE as int)
}

/// Output of the constant-product formula for a net input of
/// `source_amount` against the given reserves, rounded down.
pub open spec fn spec_swap_output(source_amount: int, swap_source_amount: int, swap_destination_amount: int) -> int {
    (source_amount * swap_destination_amount) / (swap_source_amount + source_amount)
}

/// Ceiling division of `token_amount * fee_numerator` by `fee_denominator`,
/// in double-width arithmetic.
///
/// Returns `None` when the denominator is zero or an intermediate sum
/// exceeds the `u128` range.
pub fn ceil_div(token_amount: u128, fee_numerator: u128, fee_denominator: u128) -> (r: Option<u128>)
    ensures
        r is Some <==> (token_amount * fee_numerator + fee_denominator <= u128::MAX
            && fee_denominator >= 1),
        r matches Some(v) ==> v == spec_ceil_div(token_amount as int, fee_numerator as int, fee_denominator as int),
{
    if fee_denominator == 0 {
        return None;
    }
    match token_amount.checked_mul(fee_numerator) {
        Some(product) => match product.checked_add(fee_denominator) {
            Some(sum) => Some((sum - 1) / fee_denominator),
            None => None,
        },
        None => None,
    }
}

/// Floor division of `token_amount * fee_numerator` by `fee_denominator`,
/// in double-width arithmetic.
///
/// Returns `None` when the denominator is zero or the product exceeds the
/// `u128` range.
pub fn floor_div(token_amount: u128, fee_numerator: u128, fee_denominator: u128) -> (r: Option<u128>)
    ensures
        r is Some <==> (token_amount * fee_numerator <= u128::MAX && fee_denominator >= 1),
        r matches Some(v) ==> v == spec_floor_div(token_amount as int, fee_numerator as int, fee_denominator as int),
{
    match token_amount.checked_mul(fee_numerator) {
        Some(product) => {
            if fee_denominator == 0 {
                None
            } else {
                Some(product / fee_denominator)
            }
        },
        None => None,
    }
}

/// The trade fee charged on a gross input, rounded up.
///
/// Rounding up guarantees the pool never under-collects the fee, which
/// keeps the invariant non-decreasing after a swap.
pub fn get_trade_fee(amount: u128, trade_fee_rate: u64) -> (r: Option<u128>)
    ensures
        r is Some <==> amount * trade_fee_rate + MAX_PERCENTAGE <= u128::MAX,
        r matches Some(v) ==> v == spec_trade_fee(amount as int, trade_fee_rate as int),
{
    ceil_div(amount, trade_fee_rate as u128, MAX_PERCENTAGE as u128)
}

/// The protocol share of a trade fee, rounded down.
///
/// Rounding down guarantees the protocol share never exceeds the trade fee
/// it is taken from, for any rate up to 100%.
pub fn get_protocol_fee(amount: u128, protocol_fee_rate: u64) -> (r: Option<u128>)
    ensures
        r is Some <==> amount * protocol_fee_rate <= u128::MAX,
        r matches Some(v) ==> v == spec_protocol_fee(amount as int, protocol_fee_rate as int),
{
    floor_div(amount, protocol_fee_rate as u128, MAX_PERCENTAGE as u128)
}

/// Output amount for a net input of `source_amount`, by the invariant
/// `x * y = k` solved for the destination delta:
/// `delta_y = floor(delta_x * y / (x + delta_x))`.
///
/// Rounding down makes the post-trade product of the reserves at least the
/// pre-trade product — the invariant never decreases.
pub fn swap_base_input_without_fees(
    source_amount: u128,
    swap_source_amount: u128,
    swap_destination_amount: u128,
) -> (destination_amount_swapped: u128)
    requires
        source_amount * swap_destination_amount <= u128::MAX,
        swap_source_amount + source_amount <= u128::MAX,
        swap_source_amount + source_amount >= 1,
    ensures
        destination_amount_swapped == spec_swap_output(source_amount as int, swap_source_amount as int, swap_destination_amount as int),
        destination_amount_swapped <= swap_destination_amount,
        (swap_source_amount + source_amount) * (swap_destination_amount - destination_amount_swapped)
            >= swap_source_amount * swap_destination_amount,
{
    let numerator = source_amount * swap_destination_amount;
    let denominator = swap_source_amount + source_amount;
    let destination_amount_swapped = numerator / denominator;
    proof {
        lemma_swap_output_invariant(
            source_amount as int,
            swap_source_amount as int,
            swap_destination_amount as int,
        );
    }
    destination_amount_swapped
}

/// When a swap of `source_amount` gross input at the given rates completes
/// without arithmetic overflow: every checked step below stays within the
/// `u128` range, the trade fee does not exceed the gross input, the
/// denominator of the constant-product formula is non-zero, and every
/// result narrows back to `u64`.
pub open spec fn spec_swap_ok(s: int, ps: int, pd: int, trade_fee_rate: int, protocol_fee_rate: int) -> bool {
    let tf = spec_trade_fee(s, trade_fee_rate);
    &&& s * trade_fee_rate + MAX_PERCENTAGE <= u128::MAX
    &&& tf * protocol_fee_rate <= u128::MAX
    &&& tf <= s
    &&& (s - tf) * pd <= u128::MAX
    &&& ps + (s - tf) <= u128::MAX
    &&& ps + (s - tf) >= 1
    &&& s - tf <= u64::MAX
    &&& tf <= u64::MAX
    &&& spec_protocol_fee(tf, protocol_fee_rate) <= u64::MAX
    &&& spec_swap_output(s - tf, ps, pd) <= u64::MAX
}

/// Swap a gross input of `source_amount` against the given reserves:
/// charge the trade fee on the gross input, take the protocol share of that
/// fee, and apply the remaining net input to the constant-product formula.
///
/// Fails (returns `None`) only on arithmetic overflow, never on
/// business-logic conditions — those are the quote orchestrator's
/// responsibility.
pub fn swap(
    source_amount: u128,
    pool_source_amount: u128,
    pool_destination_amount: u128,
    trade_fee_rate: u64,
    protocol_fee_rate: u64,
) -> (r: Option<SwapResult>)
    ensures
        r is Some <==> spec_swap_ok(source_amount as int, pool_source_amount as int,
            pool_destination_amount as int, trade_fee_rate as int, protocol_fee_rate as int),
        r matches Some(res) ==> {
            let tf = spec_trade_fee(source_amount as int, trade_fee_rate as int);
            &&& res.trade_fee == tf
            &&& res.protocol_fee == spec_protocol_fee(tf, protocol_fee_rate as int)
            &&& res.from_amount == source_amount - tf
            &&& res.to_amount == spec_swap_output(source_amount - tf, pool_source_amount as int, pool_destination_amount as int)
            // the trade fee never truncates the input: net input plus fee is
            // exactly the gross input
            &&& res.from_amount + res.trade_fee == source_amount
            // for a protocol fee rate of at most 100%, the protocol share
            // never exceeds the trade fee
            &&& protocol_fee_rate <= MAX_PERCENTAGE ==> res.protocol_fee <= res.trade_fee
            // the invariant never decreases
            &&& (pool_source_amount + res.from_amount) * (pool_destination_amount - res.to_amount)
                >= pool_source_amount * pool_destination_amount
        },
{
    let trade_fee = match get_trade_fee(source_amount, trade_fee_rate) {
        Some(v) => v,
        None => return None,
    };
    let protocol_fee = match get_protocol_fee(trade_fee, protocol_fee_rate) {
        Some(v) => v,
        None => return None,
    };
    let source_amount_post_fees = match source_amount.checked_sub(trade_fee) {
        Some(v) => v,
        None => return None,
    };
    // guard the constant-product numerator before handing the values on
    if source_amount_post_fees.checked_mul(pool_destination_amount).is_none() {
        return None;
    }
    let denominator = match pool_source_amount.checked_add(source_amount_post_fees) {
        Some(v) => v,
        None => return None,
    };
    if denominator == 0 {
        return None;
    }
    let destination_amount_swapped = swap_base_input_without_fees(
        source_amount_post_fees,
        pool_source_amount,
        pool_destination_amount,
    );
    if source_amount_post_fees > u64::MAX as u128
        || trade_fee > u64::MAX as u128
        || protocol_fee > u64::MAX as u128
        || destination_amount_swapped > u64::MAX as u128
    {
        return None;
    }
    proof {
        if protocol_fee_rate <= MAX_PERCENTAGE {
            lemma_protocol_fee_le_trade_fee(trade_fee as int, protocol_fee_rate as int);
        }
    }
    Some(SwapResult {
        from_amount: source_amount_post_fees as u64,
        to_amount: destination_amount_swapped as u64,
        trade_fee: trade_fee as u64,
        protocol_fee: protocol_fee as u64,
    })
}

/// The protocol share of a fee, at a rate of at most 100%, never exceeds
/// the fee itself, because it is rounded down.
pub proof fn lemma_protocol_fee_le_trade_fee(amount: int, protocol_fee_rate: int)
    requires
        amount >= 0,
        0 <= protocol_fee_rate <= MAX_PERCENTAGE,
    ensures
        spec_protocol_fee(amount, protocol_fee_rate) <= amount,
{
    let m = MAX_PERCENTAGE as int;
    lemma_mul_inequality(protocol_fee_rate, m, amount);
    lemma_mul_is_commutative(amount, protocol_fee_rate);
    lemma_mul_is_commutative(amount, m);
    lemma_div_is_ordered(amount * protocol_fee_rate, amount * m, m);
    assert((amount * m) / m == amount) by (nonlinear_arith)
        requires m >= 1,
    ;
}

/// The trade fee at a rate of at most 100% never exceeds the gross input,
/// because the input is a whole number of tokens: even rounded up, the fee
/// is at most `ceil(s * MAX_PERCENTAGE / MAX_PERCENTAGE) == s`.
pub proof fn lemma_trade_fee_le_amount(amount: int, trade_fee_rate: int)
    requires
        amount >= 0,
        0 <= trade_fee_rate <= MAX_PERCENTAGE,
    ensures
        0 <= spec_trade_fee(amount, trade_fee_rate) <= amount,
{
    let m = MAX_PERCENTAGE as int;
    lemma_mul_inequality(trade_fee_rate, m, amount);
    lemma_mul_is_commutative(amount, trade_fee_rate);
    lemma_mul_is_commutative(amount, m);
    lemma_div_is_ordered(0, amount * trade_fee_rate + m - 1, m);
    lemma_div_is_ordered(amount * trade_fee_rate + m - 1, amount * m + m - 1, m);
    assert(amount * m + m - 1 == amount * m + (m - 1)) by (nonlinear_arith);
    lemma_fundamental_div_mod_converse(amount * m + m - 1, m, amount, m - 1);
}

/// When a swap cannot fail: for a gross input and reserves drawn from the
/// native `u64` range and rates of at most 100%, every overflow condition
/// of [`spec_swap_ok`] holds, provided the net input and the source reserve
/// together are not zero. The orchestrator's overflow error can therefore
/// only arise when a 100% trade fee consumes the whole input while the
/// available source reserve is empty.
pub proof fn lemma_swap_in_range_succeeds(s: int, ps: int, pd: int, trade_fee_rate: int, protocol_fee_rate: int)
    requires
        1 <= s <= u64::MAX,
        0 <= ps <= u64::MAX,
        0 <= pd <= u64::MAX,
        0 <= trade_fee_rate <= MAX_PERCENTAGE,
        0 <= protocol_fee_rate <= MAX_PERCENTAGE,
        ps + s - spec_trade_fee(s, trade_fee_rate) >= 1,
    ensures
        spec_swap_ok(s, ps, pd, trade_fee_rate, protocol_fee_rate),
{
    let tf = spec_trade_fee(s, trade_fee_rate);
    lemma_trade_fee_le_amount(s, trade_fee_rate);
    lemma_protocol_fee_le_trade_fee(tf, protocol_fee_rate);
    assert(s * trade_fee_rate + MAX_PERCENTAGE <= u128::MAX) by (nonlinear_arith)
        requires
            1 <= s <= u64::MAX,
            0 <= trade_fee_rate <= MAX_PERCENTAGE,
    ;
    assert(tf * protocol_fee_rate <= u128::MAX) by (nonlinear_arith)
        requires
            0 <= tf <= u64::MAX,
            0 <= protocol_fee_rate <= MAX_PERCENTAGE,
    ;
    assert((s - tf) * pd <= u128::MAX) by (nonlinear_arith)
        requires
            0 <= s - tf <= u64::MAX,
            0 <= pd <= u64::MAX,
    ;
    lemma_swap_output_invariant(s - tf, ps, pd);
}

/// A swap by the constant-product formula never decreases the invariant:
/// after adding the net input to the source reserve and removing the
/// rounded-down output from the destination reserve, the product of the
/// reserves is at least the product before the trade.
pub proof fn lemma_swap_output_invariant(s: int, ps: int, pd: int)
    requires
        s >= 0,
        ps >= 0,
        pd >= 0,
        ps + s >= 1,
    ensures
        spec_swap_output(s, ps, pd) <= pd,
        (ps + s) * (pd - spec_swap_output(s, ps, pd)) >= ps * pd,
{
    let d = ps + s;
    let out = (s * pd) / d;
    lemma_fundamental_div_mod(s * pd, d);
    // out * d <= s * pd, because the division remainder is non-negative
    assert(out * d <= s * pd) by (nonlinear_arith)
        requires
            d >= 1,
            s * pd == d * out + (s * pd) % d,
            (s * pd) % d >= 0,
    ;
    // s * pd <= d * pd, since s <= d and pd >= 0
    lemma_mul_inequality(s, d, pd);
    // out <= pd, by cancelling the positive factor d
    assert(out <= pd) by (nonlinear_arith)
        requires
            d >= 1,
            pd >= 0,
            out * d <= pd * d,
    ;
    // d * (pd - out) == d * pd - d * out >= d * pd - s * pd == ps * pd
    assert(d * (pd - out) >= ps * pd) by (nonlinear_arith)
        requires
            d == ps + s,
            out * d <= s * pd,
    ;
}

/// Defensive terminal case of the rebalance solver: the swap output reaches
/// or exceeds the current destination reserve, or either current reserve is
/// zero. Should be unreachable given upstream validation.
pub open spec fn spec_rebalance_degenerate(to_amount_swapped: int, current_source: int, current_dest: int) -> bool {
    ||| to_amount_swapped >= current_dest
    ||| current_source == 0
    ||| current_dest == 0
}

/// Scaled distance of the post-lock available ratio from the target ratio,
/// for a candidate `lock`:
/// `|(current_source - lock)/remaining_dest - original_source/original_dest|`
/// multiplied by the positive common denominator
/// `remaining_dest * original_dest`. Comparing these scaled errors compares
/// the exact rational ratio errors, with no rounding.
pub open spec fn spec_ratio_error(cs: int, rd: int, os: int, od: int, lock: int) -> int {
    abs((cs - lock) * od - os * rd) as int
}

/// Low end of the three-wide search window around the real-valued solution
/// `e = cs - rd * os / od` of the perfect-rebalance equation:
/// `max(floor(e) - 1, 0)`.
pub open spec fn spec_window_low(cs: int, rd: int, os: int, od: int) -> int {
    if cs * od >= rd * os {
        if cs * od - rd * os >= od {
            (cs * od - rd * os) / od - 1
        } else {
            0
        }
    } else {
        0
    }
}

/// High end of the three-wide search window around the real-valued solution
/// `e = cs - rd * os / od`: `floor(min(e + 1, cs))`, which collapses to `0`
/// when `e < 0`.
pub open spec fn spec_window_high(cs: int, rd: int, os: int, od: int) -> int {
    if cs * od >= rd * os {
        if rd * os >= od {
            (cs * od - rd * os) / od + 1
        } else {
            cs
        }
    } else {
        0
    }
}

/// One step of the candidate scan: candidate `c` replaces the best
/// candidate so far when `c` does not zero out the source reserve and
/// either no valid candidate was seen yet (`best == -1`) or `c` has a
/// strictly smaller ratio error. Equal errors keep the earlier candidate.
pub open spec fn spec_scan_prefer(cs: int, rd: int, os: int, od: int, best: int, c: int) -> int {
    if c == cs {
        best
    } else if best == -1 {
        c
    } else if spec_ratio_error(cs, rd, os, od, c) < spec_ratio_error(cs, rd, os, od, best) {
        c
    } else {
        best
    }
}

/// Best candidate lock after scanning `lo..=hi` upward, or `-1` when no
/// candidate in the window is valid.
pub open spec fn spec_best_lock_in(cs: int, rd: int, os: int, od: int, lo: int, hi: int) -> int
    decreases hi - lo + 1,
{
    if hi < lo {
        -1
    } else {
        spec_scan_prefer(cs, rd, os, od, spec_best_lock_in(cs, rd, os, od, lo, hi - 1), hi)
    }
}

/// The lock chosen by the solver: the first minimal-error candidate of the
/// scan over the whole window, or `0` when the window holds no valid
/// candidate.
pub open spec fn spec_best_lock(cs: int, rd: int, os: int, od: int) -> int {
    let b = spec_best_lock_in(
        cs, rd, os, od,
        spec_window_low(cs, rd, os, od),
        spec_window_high(cs, rd, os, od),
    );
    if b == -1 {
        0
    } else {
        b
    }
}

/// The full outcome of the rebalance solver, including the degenerate
/// terminal case and the two double-width products whose overflow makes the
/// solver fail.
///
/// The tolerance comparison is the exact rational form of
/// `|final_ratio - target_ratio| / target_ratio > tolerance_rate / MAX_PERCENTAGE`.
/// The left side equals `error / (remaining_dest * original_source)`, so
/// multiplying both sides by the positive quantity
/// `remaining_dest * original_source * MAX_PERCENTAGE` leaves
/// `error * MAX_PERCENTAGE > tolerance_rate * (remaining_dest * original_source)`.
pub open spec fn spec_rebalance(
    to_amount_swapped: int,
    cs: int,
    cd: int,
    os: int,
    od: int,
    tolerance_rate: int,
) -> Option<RebalanceResult> {
    if spec_rebalance_degenerate(to_amount_swapped, cs, cd) {
        Some(RebalanceResult { from_to_lock: 0, is_rate_tolerance_exceeded: true })
    } else {
        let rd = cd - to_amount_swapped;
        let b = spec_best_lock(cs, rd, os, od);
        let err = spec_ratio_error(cs, rd, os, od, b);
        if err * MAX_PERCENTAGE <= u128::MAX && tolerance_rate * (rd * os) <= u128::MAX {
            Some(RebalanceResult {
                from_to_lock: b as u64,
                is_rate_tolerance_exceeded: err * MAX_PERCENTAGE > tolerance_rate * (rd * os),
            })
        } else {
            None
        }
    }
}

/// The scan result over `lo..=hi` is exactly what the tie-break policy
/// promises: no candidate at all only in the one case where the whole
/// window is the single excluded value `cs`; otherwise a valid candidate of
/// the window whose ratio error no valid candidate beats, and which every
/// earlier valid candidate exceeds strictly — so of several minimal-error
/// candidates the scan keeps the lowest.
pub proof fn lemma_best_lock_in_minimizes(cs: int, rd: int, os: int, od: int, lo: int, hi: int)
    requires
        0 <= lo <= hi,
    ensures
        ({
            let b = spec_best_lock_in(cs, rd, os, od, lo, hi);
            &&& (b == -1 <==> (lo == hi && lo == cs))
            &&& b != -1 ==> {
                &&& lo <= b <= hi
                &&& b != cs
                &&& forall|c: int| #![trigger spec_ratio_error(cs, rd, os, od, c)]
                    lo <= c <= hi && c != cs
                    ==> spec_ratio_error(cs, rd, os, od, b) <= spec_ratio_error(cs, rd, os, od, c)
                &&& forall|c: int| #![trigger spec_ratio_error(cs, rd, os, od, c)]
                    lo <= c < b && c != cs
                    ==> spec_ratio_error(cs, rd, os, od, c) > spec_ratio_error(cs, rd, os, od, b)
            }
        }),
    decreases hi - lo,
{
    if lo == hi {
        assert(spec_best_lock_in(cs, rd, os, od, lo, hi - 1) == -1);
    } else {
        lemma_best_lock_in_minimizes(cs, rd, os, od, lo, hi - 1);
    }
}

/// For a non-degenerate rebalance, the solver's search window is a
/// non-empty slice of `[0, cs]`, and the chosen lock is a candidate of that
/// window which never zeroes the source reserve, whose ratio error no valid
/// candidate of the window beats, and which every earlier valid candidate
/// exceeds strictly.
pub proof fn lemma_rebalance_lock_minimizes(to_amount_swapped: int, cs: int, cd: int, os: int, od: int)
    requires
        !spec_rebalance_degenerate(to_amount_swapped, cs, cd),
        0 <= to_amount_swapped,
        cs >= 0,
        os >= 1,
        od >= 1,
    ensures
        ({
            let rd = cd - to_amount_swapped;
            let lo = spec_window_low(cs, rd, os, od);
            let hi = spec_window_high(cs, rd, os, od);
            let b = spec_best_lock(cs, rd, os, od);
            &&& 0 <= lo <= hi <= cs
            &&& lo <= b <= hi
            &&& b != cs
            &&& forall|c: int| #![trigger spec_ratio_error(cs, rd, os, od, c)]
                lo <= c <= hi && c != cs
                ==> spec_ratio_error(cs, rd, os, od, b) <= spec_ratio_error(cs, rd, os, od, c)
            &&& forall|c: int| #![trigger spec_ratio_error(cs, rd, os, od, c)]
                lo <= c < b && c != cs
                ==> spec_ratio_error(cs, rd, os, od, c) > spec_ratio_error(cs, rd, os, od, b)
        }),
{
    let rd = cd - to_amount_swapped;
    let lo = spec_window_low(cs, rd, os, od);
    let hi = spec_window_high(cs, rd, os, od);
    assert(rd * os >= 1) by (nonlinear_arith)
        requires rd >= 1 && os >= 1,
    ;
    if cs * od >= rd * os {
        let num = cs * od - rd * os;
        lemma_window_quotient_bound(cs, od, num);
        if num >= od {
            lemma_div_is_ordered(od, num, od);
            assert(od / od == 1) by (nonlinear_arith)
                requires od >= 1,
            ;
        }
    }
    assert(0 <= lo <= hi <= cs && lo < cs);
    lemma_best_lock_in_minimizes(cs, rd, os, od, lo, hi);
}

/// Quotients by `od` of values up to `cs * od - 1` stay below `cs`: the
/// bound that keeps the search window inside `[0, cs]`.
proof fn lemma_window_quotient_bound(cs: int, od: int, num: int)
    requires
        od >= 1,
        cs >= 1,
        0 <= num <= cs * od - 1,
    ensures
        num / od <= cs - 1,
        num / od >= 0,
{
    assert(cs * od - 1 == (cs - 1) * od + (od - 1)) by (nonlinear_arith);
    lemma_fundamental_div_mod_converse(cs * od - 1, od, cs - 1, od - 1);
    lemma_div_is_ordered(num, cs * od - 1, od);
    lemma_div_is_ordered(0, num, od);
}

/// Compute how much of the source side must be set aside ("locked") after a
/// trade so that the available reserve ratio stays as close as possible to
/// the pre-trade full-reserve ratio, and whether even the best lock leaves
/// the relative ratio drift above `ratio_change_tolerance_rate`.
///
/// The integer candidates in a window of width three around the exact real
/// solution, clamped to `[0, current_source_amount]`, are compared by exact
/// cross-multiplied rational arithmetic; the scan keeps the first candidate
/// with a strictly smaller error, excluding any candidate that zeroes the
/// source reserve.
///
/// Returns `None` only when a double-width product of the tolerance
/// comparison overflows.
#[verifier::loop_isolation(false)]
pub fn rebalance_pool_ratio(
    to_amount_swapped: u64,
    current_source_amount: u64,
    current_destination_amount: u64,
    original_source_amount: u64,
    original_destination_amount: u64,
    ratio_change_tolerance_rate: u64,
) -> (r: Option<RebalanceResult>)
    requires
        spec_rebalance_degenerate(to_amount_swapped as int, current_source_amount as int, current_destination_amount as int)
            || (original_source_amount >= 1 && original_destination_amount >= 1),
    ensures
        r == spec_rebalance(
            to_amount_swapped as int,
            current_source_amount as int,
            current_destination_amount as int,
            original_source_amount as int,
            original_destination_amount as int,
            ratio_change_tolerance_rate as int,
        ),
        // the lock never consumes the whole current source reserve, so the
        // orchestrator's reserve-positivity checks are defensive only
        r matches Some(rb) ==> rb.from_to_lock <= current_source_amount,
        current_source_amount >= 1 ==> (r matches Some(rb) ==> rb.from_to_lock < current_source_amount),
{
    if to_amount_swapped >= current_destination_amount
        || current_source_amount == 0
        || current_destination_amount == 0
    {
        // Should never happen, but just in case
        return Some(RebalanceResult { from_to_lock: 0, is_rate_tolerance_exceeded: true });
    }

    let remaining_destination = current_destination_amount - to_amount_swapped;

    let ghost cs_i = current_source_amount as int;
    let ghost rd_i = remaining_destination as int;
    let ghost os_i = original_source_amount as int;
    let ghost od_i = original_destination_amount as int;

    let cs_w = current_source_amount as u128;
    let rd_w = remaining_destination as u128;
    let os_w = original_source_amount as u128;
    let od_w = original_destination_amount as u128;

    proof {
        assert(cs_w * od_w <= u128::MAX && rd_w * os_w <= u128::MAX) by (nonlinear_arith)
            requires
                cs_w <= u64::MAX,
                od_w <= u64::MAX,
                rd_w <= u64::MAX,
                os_w <= u64::MAX,
        ;
        assert(rd_w * os_w >= 1) by (nonlinear_arith)
            requires rd_w >= 1 && os_w >= 1,
        ;
    }
    let p = cs_w * od_w;
    let q = rd_w * os_w;

    let (start_val, end_val): (u64, u64) = if p >= q {
        let num = p - q;
        let quot = num / od_w;
        proof {
            lemma_window_quotient_bound(cs_i, od_i, num as int);
        }
        let quot64 = quot as u64;
        let lo = if num >= od_w {
            proof {
                lemma_div_is_ordered(od_i, num as int, od_i);
                assert(od_i / od_i == 1) by (nonlinear_arith)
                    requires od_i >= 1,
                ;
            }
            quot64 - 1
        } else {
            0
        };
        let hi = if q >= od_w { quot64 + 1 } else { current_source_amount };
        (lo, hi)
    } else {
        (0, 0)
    };

    let mut best: u64 = 0;
    let mut best_err: u128 = 0;
    let mut have_best: bool = false;
    let mut i: u128 = start_val as u128;

    while i <= end_val as u128
        invariant
            start_val as u128 <= i <= end_val as u128 + 1,
            i > start_val as u128 ==> have_best,
            ({
                let b = spec_best_lock_in(cs_i, rd_i, os_i, od_i, start_val as int, i - 1);
                if have_best {
                    &&& b == best
                    &&& start_val <= best <= end_val
                    &&& best != current_source_amount
                    &&& best_err == spec_ratio_error(cs_i, rd_i, os_i, od_i, best as int)
                } else {
                    &&& b == -1
                    &&& best == 0
                }
            }),
        decreases end_val as u128 + 1 - i,
    {
        let c = i as u64;
        if c != current_source_amount {
            let new_source = current_source_amount - c;
            proof {
                assert((new_source as u128) * od_w <= u128::MAX) by (nonlinear_arith)
                    requires
                        new_source <= u64::MAX,
                        od_w <= u64::MAX,
                ;
            }
            let a = (new_source as u128) * od_w;
            let e = if a >= q { a - q } else { q - a };
            if !have_best || e < best_err {
                best = c;
                best_err = e;
                have_best = true;
            }
        }
        i = i + 1;
    }

    let lhs = match best_err.checked_mul(MAX_PERCENTAGE as u128) {
        Some(v) => v,
        None => return None,
    };
    let rhs = match (ratio_change_tolerance_rate as u128).checked_mul(q) {
        Some(v) => v,
        None => return None,
    };

    Some(RebalanceResult { from_to_lock: best, is_rate_tolerance_exceeded: lhs > rhs })
}

} // verus!

