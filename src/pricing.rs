//! The constant-product pricing of buys and sells, with fees in basis points and
//! every division rounded down.

use vstd::prelude::*;
use vstd::arithmetic::div_mod::{lemma_div_is_ordered, lemma_div_multiples_vanish, lemma_div_pos_is_pos};

use crate::errors::ErrorCode;

verus! {

/// Fee denominator: fees are expressed in basis points.
pub const BPS_DENOMINATOR: u128 = 10_000;

/// Fee taken from `amount` at `fee_bps` basis points, rounded down.
pub open spec fn fee_of(amount: int, fee_bps: int) -> int {
    amount * fee_bps / 10_000
}

/// A buy is computable when the fee does not exceed the payment and the
/// outcome pool after the payment is not empty.
pub open spec fn buy_defined(lo: int, lp: int, m: int, f: int) -> bool {
    &&& fee_of(m, f) <= m
    &&& lo + (m - fee_of(m, f)) > 0
}

/// Outcome reserve on the curve after a buy: the old reserve plus the payment net of fee.
pub open spec fn buy_new_outcome(lo: int, m: int, f: int) -> int {
    lo + (m - fee_of(m, f))
}

/// Opposite reserve on the curve after a buy: `k / new_outcome`, rounded down.
pub open spec fn buy_new_opposite(lo: int, lp: int, m: int, f: int) -> int {
    (lo * lp) / buy_new_outcome(lo, m, f)
}

/// Shares handed out by a buy.
pub open spec fn buy_shares_out(lo: int, lp: int, m: int, f: int) -> int {
    lp - buy_new_opposite(lo, lp, m, f)
}

/// A sell is computable when the opposite pool after it is not empty and the
/// fee fits in 64 bits.
pub open spec fn sell_defined(lo: int, lp: int, s: int, f: int) -> bool {
    &&& lp + s > 0
    &&& fee_of(sell_payout(lo, lp, s), f) <= u64::MAX
}

/// Opposite reserve on the curve after a sell: the old reserve plus the shares sold.
pub open spec fn sell_new_opposite(lp: int, s: int) -> int {
    lp + s
}

/// Outcome reserve on the curve after a sell: `k / new_opposite`, rounded down.
pub open spec fn sell_new_outcome(lo: int, lp: int, s: int) -> int {
    (lo * lp) / sell_new_opposite(lp, s)
}

/// Gross amount paid out for a sell, before its fee.
pub open spec fn sell_payout(lo: int, lp: int, s: int) -> int {
    lo - sell_new_outcome(lo, lp, s)
}

/// `(l * r) / d <= r` whenever `l <= d`: a pool recomputed from the constant
/// product never grows past the side it replaces.
proof fn lemma_quotient_bounded(l: int, r: int, d: int)
    requires
        0 <= l <= d,
        0 <= r,
        d > 0,
    ensures
        0 <= (l * r) / d <= r,
{
    assert(l * r <= d * r) by (nonlinear_arith)
        requires l <= d, 0 <= r;
    assert(0 <= l * r) by (nonlinear_arith)
        requires 0 <= l, 0 <= r;
    lemma_div_is_ordered(l * r, d * r, d);
    lemma_div_multiples_vanish(r, d);
    lemma_div_pos_is_pos(l * r, d);
}

proof fn lemma_product_fits(a: u64, b: u64)
    ensures
        0 <= (a as int) * (b as int) <= u128::MAX,
{
    assert(0 <= (a as int) * (b as int) <= u128::MAX) by (nonlinear_arith)
        requires a <= u64::MAX, b <= u64::MAX;
}

/// Prices a buy of one outcome: spends the whole `max_payment` and returns
/// `(shares_out, actual_cost, fee)`, with `actual_cost == max_payment`.
pub fn calculate_buy_shares(
    outcome_liquidity: u64,
    opposite_liquidity: u64,
    max_payment: u64,
    free_bps: u16,
) -> (r: Result<(u64, u64, u64), ErrorCode>)
    ensures
        r.is_ok() == buy_defined(
            outcome_liquidity as int,
            opposite_liquidity as int,
            max_payment as int,
            free_bps as int,
        ),
        r.is_err() ==> r == Err::<(u64, u64, u64), ErrorCode>(ErrorCode::MathOverflow),
        r.is_ok() ==> ({
            let (shares, cost, fee) = r->Ok_0;
            &&& shares as int == buy_shares_out(
                outcome_liquidity as int,
                opposite_liquidity as int,
                max_payment as int,
                free_bps as int,
            )
            &&& cost == max_payment
            &&& fee as int == fee_of(max_payment as int, free_bps as int)
        }),
{
    let lo = outcome_liquidity as u128;
    let lp = opposite_liquidity as u128;
    let m = max_payment as u128;
    let f = free_bps as u128;
    proof {
        assert(m * f <= u128::MAX) by (nonlinear_arith)
            requires m <= u64::MAX, f <= u16::MAX;
    }
    let fee: u128 = m * f / BPS_DENOMINATOR;
    if fee > m {
        return Err(ErrorCode::MathOverflow);
    }
    let payment_after_fee: u128 = m - fee;
    proof {
        lemma_product_fits(outcome_liquidity, opposite_liquidity);
    }
    let k: u128 = lo * lp;
    let new_outcome: u128 = lo + payment_after_fee;
    if new_outcome == 0 {
        return Err(ErrorCode::MathOverflow);
    }
    let new_opposite: u128 = k / new_outcome;
    proof {
        lemma_quotient_bounded(lo as int, lp as int, new_outcome as int);
    }
    let shares_out: u128 = lp - new_opposite;
    Ok((shares_out as u64, max_payment, fee as u64))
}

/// Prices a sell of `shares_in` shares of one outcome and returns
/// `(payout, fee)`; the trader receives `payout - fee`.
pub fn calculate_sell_shares(
    outcome_liquidity: u64,
    opposite_liquidity: u64,
    shares_in: u64,
    free_bps: u16,
) -> (r: Result<(u64, u64), ErrorCode>)
    ensures
        r.is_ok() == sell_defined(
            outcome_liquidity as int,
            opposite_liquidity as int,
            shares_in as int,
            free_bps as int,
        ),
        r.is_err() ==> r == Err::<(u64, u64), ErrorCode>(ErrorCode::MathOverflow),
        r.is_ok() ==> ({
            let (payout, fee) = r->Ok_0;
            &&& payout as int == sell_payout(
                outcome_liquidity as int,
                opposite_liquidity as int,
                shares_in as int,
            )
            &&& fee as int == fee_of(payout as int, free_bps as int)
        }),
{
    let lo = outcome_liquidity as u128;
    let lp = opposite_liquidity as u128;
    let s = shares_in as u128;
    let f = free_bps as u128;
    proof {
        lemma_product_fits(outcome_liquidity, opposite_liquidity);
    }
    let k: u128 = lo * lp;
    let new_opposite: u128 = lp + s;
    if new_opposite == 0 {
        return Err(ErrorCode::MathOverflow);
    }
    let new_outcome: u128 = k / new_opposite;
    proof {
        lemma_quotient_bounded(lp as int, lo as int, new_opposite as int);
        assert((lo as int) * (lp as int) == (lp as int) * (lo as int)) by (nonlinear_arith);
    }
    let payout: u128 = lo - new_outcome;
    proof {
        assert(payout * f <= u128::MAX) by (nonlinear_arith)
            requires payout <= u64::MAX, f <= u16::MAX;
    }
    let fee: u128 = payout * f / BPS_DENOMINATOR;
    if fee > u64::MAX as u128 {
        return Err(ErrorCode::MathOverflow);
    }
    Ok((payout as u64, fee as u64))
}

} // verus!
