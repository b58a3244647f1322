//! Properties that relate several instructions or hold across calls.

use vstd::prelude::*;
use vstd::arithmetic::div_mod::{
    lemma_fundamental_div_mod, lemma_fundamental_div_mod_converse, lemma_mod_bound,
};

use crate::errors::ErrorCode;
use crate::lifecycle::{
    claim_refund_effect, claim_refund_error, claim_winnings_effect, claim_winnings_error,
    invalidate_error, resolve_error,
};
use crate::pricing::{
    buy_defined, buy_new_opposite, buy_new_outcome, buy_shares_out, fee_of, sell_defined,
    sell_new_opposite, sell_new_outcome, sell_payout,
};
use crate::state::{BuyShares, ClaimRefund, ClaimWinnings, InvalidateMarket, Market, MarketStatus, Outcome, ResolveMarket, SellShares, UserPosition};
use crate::trade::{buy_effect, buy_error, opened_position, sell_effect, sell_error};

verus! {

/// The fee-free part of a buy moves the pools along the constant-product curve:
/// the new product is at most `k`, and falls short of it by less than one unit of
/// the recomputed opposite reserve.
pub proof fn lemma_buy_keeps_product(lo: u64, lp: u64, m: u64, f: u16)
    requires
        buy_defined(lo as int, lp as int, m as int, f as int),
    ensures
        ({
            let n = buy_new_outcome(lo as int, m as int, f as int);
            let q = buy_new_opposite(lo as int, lp as int, m as int, f as int);
            &&& q == lp - buy_shares_out(lo as int, lp as int, m as int, f as int)
            &&& n * q <= lo * lp < n * (q + 1)
        }),
{
    let n = buy_new_outcome(lo as int, m as int, f as int);
    let k = lo as int * lp as int;
    lemma_fundamental_div_mod(k, n);
    lemma_mod_bound(k, n);
    assert(n * (k / n + 1) == n * (k / n) + n) by (nonlinear_arith);
}

/// The fee-free part of a sell moves the pools along the constant-product curve:
/// the new product is at most `k`, and falls short of it by less than one unit of
/// the recomputed outcome reserve.
pub proof fn lemma_sell_keeps_product(lo: u64, lp: u64, s: u64, f: u16)
    requires
        sell_defined(lo as int, lp as int, s as int, f as int),
    ensures
        ({
            let n = sell_new_opposite(lp as int, s as int);
            let q = sell_new_outcome(lo as int, lp as int, s as int);
            &&& q == lo - sell_payout(lo as int, lp as int, s as int)
            &&& q * n <= lo * lp < (q + 1) * n
        }),
{
    let n = sell_new_opposite(lp as int, s as int);
    let k = lo as int * lp as int;
    lemma_fundamental_div_mod(k, n);
    lemma_mod_bound(k, n);
    assert((k / n + 1) * n == n * (k / n) + n) by (nonlinear_arith);
    assert((k / n) * n == n * (k / n)) by (nonlinear_arith);
}

/// Selling back, on the pools a buy left, the shares that buy handed out: the
/// gross payout is the buy's payment net of fee plus the buy's rounding remainder
/// `k % n` spread over the opposite reserve (rounded up), so exactly the net
/// payment when that division was exact; and what comes back net of the sell fee
/// falls short of the payment by at most twice the fee rate applied to it.
pub proof fn lemma_round_trip(lo: u64, lp: u64, m: u64, f: u16)
    requires
        f <= 1000,
        buy_defined(lo as int, lp as int, m as int, f as int),
        buy_new_outcome(lo as int, m as int, f as int) <= u64::MAX,
        sell_defined(
            buy_new_outcome(lo as int, m as int, f as int),
            buy_new_opposite(lo as int, lp as int, m as int, f as int),
            buy_shares_out(lo as int, lp as int, m as int, f as int),
            f as int,
        ),
    ensures
        ({
            let n = buy_new_outcome(lo as int, m as int, f as int);
            let paid_in = m - fee_of(m as int, f as int);
            let rem = (lo * lp) % n;
            let payout = sell_payout(
                n,
                buy_new_opposite(lo as int, lp as int, m as int, f as int),
                buy_shares_out(lo as int, lp as int, m as int, f as int),
            );
            let net = payout - fee_of(payout, f as int);
            &&& payout == paid_in + (rem + lp - 1) / (lp as int)
            &&& rem == 0 ==> net <= paid_in
            &&& (m - net) * 10_000 <= 2 * (f as int) * m
        }),
{
    let n = buy_new_outcome(lo as int, m as int, f as int);
    let k = lo as int * lp as int;
    let q = k / n;
    let r = k % n;
    let s = buy_shares_out(lo as int, lp as int, m as int, f as int);
    let paid_in = m - fee_of(m as int, f as int);
    let lpi = lp as int;
    lemma_fundamental_div_mod(k, n);
    lemma_mod_bound(k, n);
    assert(lpi > 0);
    assert(q + s == lpi);
    let c = (r + lpi - 1) / lpi;
    lemma_fundamental_div_mod(r + lpi - 1, lpi);
    lemma_mod_bound(r + lpi - 1, lpi);
    assert(c * lpi >= r && c * lpi < r + lpi) by (nonlinear_arith)
        requires
            r + lpi - 1 == lpi * c + (r + lpi - 1) % lpi,
            0 <= (r + lpi - 1) % lpi < lpi,
    ;
    assert(0 <= c) by (nonlinear_arith)
        requires c * lpi >= r, r >= 0, lpi > 0, c * lpi < r + lpi;
    assert(n * q == (lo as int - c) * lpi + (c * lpi - r)) by (nonlinear_arith)
        requires k == n * q + r, k == lo as int * lpi;
    lemma_fundamental_div_mod_converse(n * q, lpi, lo as int - c, c * lpi - r);
    assert(sell_new_outcome(n, q, s) == lo as int - c);
    let payout = sell_payout(n, q, s);
    assert(payout == paid_in + c);
    let fee1 = fee_of(m as int, f as int);
    let fee2 = fee_of(payout, f as int);
    lemma_fundamental_div_mod(m as int * f as int, 10_000);
    lemma_mod_bound(m as int * f as int, 10_000);
    lemma_fundamental_div_mod(payout * f as int, 10_000);
    lemma_mod_bound(payout * f as int, 10_000);
    assert(fee1 * 10_000 <= m as int * f as int);
    assert(fee2 * 10_000 <= payout * f as int);
    assert((m - (payout - fee2)) * 10_000 <= 2 * (f as int) * m) by (nonlinear_arith)
        requires
            fee1 * 10_000 <= m as int * f as int,
            fee2 * 10_000 <= payout * f as int,
            payout == m - fee1 + c,
            0 <= fee1 <= m,
            0 <= c,
            0 <= f <= 1000,
    ;
    if r == 0 {
        assert(c == 0) by (nonlinear_arith)
            requires c * lpi >= r, c * lpi < r + lpi, r == 0, lpi > 0;
        assert(fee2 >= 0) by (nonlinear_arith)
            requires fee2 * 10_000 > payout * f as int - 10_000, payout >= 0, f >= 0;
    }
}

/// A market is resolved at most once: after a resolution succeeds, every further
/// resolution of it is refused, whoever asks and whenever.
pub proof fn lemma_resolve_once(
    ctx: ResolveMarket,
    winning_outcome: Outcome,
    now: i64,
    later: ResolveMarket,
    again_now: i64,
)
    requires
        resolve_error(ctx, now).is_none(),
        later.market == (Market {
            status: MarketStatus::Resolved,
            winning_outcome: Some(winning_outcome),
            ..ctx.market
        }),
    ensures
        resolve_error(later, again_now).is_some(),
{
}

/// Total shares of `o` held by the positions `ps`.
pub open spec fn held_shares(ps: Seq<UserPosition>, o: Outcome) -> int
    decreases ps.len(),
{
    if ps.len() == 0 {
        0
    } else {
        held_shares(ps.drop_last(), o) + ps.last().shares_of(o)
    }
}

/// Every position of `ps` that has not traded yet holds nothing.
pub open spec fn untraded_hold_nothing(ps: Seq<UserPosition>) -> bool {
    forall|j: int|
        0 <= j < ps.len() && !(#[trigger] ps[j]).initialized ==> ps[j].yes_shares == 0
            && ps[j].no_shares == 0
}

/// The share totals of `m` are exactly what the positions `ps` hold.
pub open spec fn totals_match(m: Market, ps: Seq<UserPosition>) -> bool {
    &&& m.total_yes_shares == held_shares(ps, Outcome::Yes)
    &&& m.total_no_shares == held_shares(ps, Outcome::No)
}

proof fn lemma_held_shares_update(ps: Seq<UserPosition>, i: int, p: UserPosition, o: Outcome)
    requires
        0 <= i < ps.len(),
    ensures
        held_shares(ps.update(i, p), o) == held_shares(ps, o) - ps[i].shares_of(o) + p.shares_of(
            o,
        ),
    decreases ps.len(),
{
    let qs = ps.update(i, p);
    if i == ps.len() - 1 {
        assert(qs.drop_last() =~= ps.drop_last());
    } else {
        lemma_held_shares_update(ps.drop_last(), i, p, o);
        assert(qs.drop_last() =~= ps.drop_last().update(i, p));
    }
}

/// A buy keeps the market's share totals equal to what its positions hold: if
/// they agree before, they agree after the buyer's position `ps[i]` is replaced
/// by its new value.
pub proof fn lemma_buy_keeps_share_totals(
    ctx: BuyShares,
    o: Outcome,
    max_cost: u64,
    now: i64,
    ps: Seq<UserPosition>,
    i: int,
)
    requires
        buy_error(ctx, o, max_cost, now).is_none(),
        0 <= i < ps.len(),
        ps[i] == ctx.user_position,
        untraded_hold_nothing(ps),
        totals_match(ctx.market, ps),
    ensures
        totals_match(
            buy_effect(ctx, o, max_cost).market,
            ps.update(i, buy_effect(ctx, o, max_cost).user_position),
        ),
{
    let after = buy_effect(ctx, o, max_cost);
    assert(opened_position(ctx).shares_of(Outcome::Yes) == ps[i].shares_of(Outcome::Yes));
    assert(opened_position(ctx).shares_of(Outcome::No) == ps[i].shares_of(Outcome::No));
    lemma_held_shares_update(ps, i, after.user_position, Outcome::Yes);
    lemma_held_shares_update(ps, i, after.user_position, Outcome::No);
}

/// A sell keeps the market's share totals equal to what its positions hold: if
/// they agree before, they agree after the seller's position `ps[i]` is replaced
/// by its new value.
pub proof fn lemma_sell_keeps_share_totals(
    ctx: SellShares,
    o: Outcome,
    shares_in: u64,
    min_payout: u64,
    now: i64,
    ps: Seq<UserPosition>,
    i: int,
)
    requires
        sell_error(ctx, o, shares_in, min_payout, now).is_none(),
        0 <= i < ps.len(),
        ps[i] == ctx.user_position,
        totals_match(ctx.market, ps),
    ensures
        totals_match(
            sell_effect(ctx, o, shares_in).market,
            ps.update(i, sell_effect(ctx, o, shares_in).user_position),
        ),
{
    let after = sell_effect(ctx, o, shares_in);
    lemma_held_shares_update(ps, i, after.user_position, Outcome::Yes);
    lemma_held_shares_update(ps, i, after.user_position, Outcome::No);
}

/// A claim of winnings keeps the market's share totals equal to what its
/// positions hold: if they agree before, they agree after the claimant's
/// position `ps[i]` is replaced by its new value.
pub proof fn lemma_claim_winnings_keeps_share_totals(
    ctx: ClaimWinnings,
    ps: Seq<UserPosition>,
    i: int,
)
    requires
        claim_winnings_error(ctx).is_none(),
        0 <= i < ps.len(),
        ps[i] == ctx.user_position,
        totals_match(ctx.market, ps),
    ensures
        totals_match(
            claim_winnings_effect(ctx).market,
            ps.update(i, claim_winnings_effect(ctx).user_position),
        ),
{
    let after = claim_winnings_effect(ctx);
    lemma_held_shares_update(ps, i, after.user_position, Outcome::Yes);
    lemma_held_shares_update(ps, i, after.user_position, Outcome::No);
}

/// A claim of refund keeps the market's share totals equal to what its
/// positions hold: if they agree before, they agree after the claimant's
/// position `ps[i]` is replaced by its new value.
pub proof fn lemma_claim_refund_keeps_share_totals(ctx: ClaimRefund, ps: Seq<UserPosition>, i: int)
    requires
        claim_refund_error(ctx).is_none(),
        0 <= i < ps.len(),
        ps[i] == ctx.user_position,
        totals_match(ctx.market, ps),
    ensures
        totals_match(
            claim_refund_effect(ctx).market,
            ps.update(i, claim_refund_effect(ctx).user_position),
        ),
{
    let after = claim_refund_effect(ctx);
    lemma_held_shares_update(ps, i, after.user_position, Outcome::Yes);
    lemma_held_shares_update(ps, i, after.user_position, Outcome::No);
}

/// Resolved and invalid markets are final: resolution, invalidation, buys and
/// sells are all refused on a market that is no longer active.
pub proof fn lemma_settled_market_is_final(
    r: ResolveMarket,
    now: i64,
    i: InvalidateMarket,
    b: BuyShares,
    o: Outcome,
    max_cost: u64,
    s: SellShares,
    shares_in: u64,
    min_payout: u64,
)
    requires
        r.market.status != MarketStatus::Active,
        i.market.status != MarketStatus::Active,
        b.market.status != MarketStatus::Active,
        s.market.status != MarketStatus::Active,
    ensures
        resolve_error(r, now).is_some(),
        invalidate_error(i).is_some(),
        buy_error(b, o, max_cost, now) == Some(ErrorCode::MarketNotActive),
        sell_error(s, o, shares_in, min_payout, now) == Some(
            ErrorCode::MarketNotActive,
        ),
{
}

/// A winning outcome is recorded exactly when the market is resolved, and every
/// status change keeps it so: resolution records one, invalidation of an active
/// market leaves none, and trades touch neither.
pub proof fn lemma_status_changes_keep_wf(
    m: Market,
    w: Outcome,
    b: BuyShares,
    o: Outcome,
    max_cost: u64,
    s: SellShares,
    shares_in: u64,
)
    requires
        m.wf(),
        b.market.wf(),
        s.market.wf(),
    ensures
        (Market { status: MarketStatus::Resolved, winning_outcome: Some(w), ..m }).wf(),
        m.status == MarketStatus::Active ==> (Market { status: MarketStatus::Invalid, ..m }).wf(),
        buy_effect(b, o, max_cost).market.wf(),
        sell_effect(s, o, shares_in).market.wf(),
{
}

} // verus!
