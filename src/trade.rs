//! Buying and selling shares against a market's pools.

use vstd::prelude::*;

use crate::errors::ErrorCode;
use crate::pricing::{
    buy_defined, buy_shares_out, calculate_buy_shares, calculate_sell_shares, fee_of,
    sell_defined, sell_payout,
};
use crate::state::{
    BuyShares, Market, MarketStatus, Outcome, ProtocolState, SellShares, TokenTransfer,
    UserPosition,
};

verus! {

/// The position a buy works on: the stored one, or a fresh zeroed one on first touch.
pub open spec fn opened_position(ctx: BuyShares) -> UserPosition {
    if ctx.user_position.initialized {
        ctx.user_position
    } else {
        UserPosition {
            user: ctx.user,
            market: ctx.market_address,
            yes_shares: 0,
            no_shares: 0,
            total_invested: 0,
            initialized: true,
            bump: ctx.user_position_bump,
        }
    }
}

/// `m` with the pool of `o` changed by `liquidity`, its share total by `shares`,
/// and `volume` added to its traded volume.
pub open spec fn market_after_trade(
    m: Market,
    o: Outcome,
    liquidity: int,
    shares: int,
    volume: int,
) -> Market {
    match o {
        Outcome::Yes => Market {
            yes_liquidity: (m.yes_liquidity + liquidity) as u64,
            total_yes_shares: (m.total_yes_shares + shares) as u64,
            total_volume: (m.total_volume + volume) as u64,
            ..m
        },
        Outcome::No => Market {
            no_liquidity: (m.no_liquidity + liquidity) as u64,
            total_no_shares: (m.total_no_shares + shares) as u64,
            total_volume: (m.total_volume + volume) as u64,
            ..m
        },
    }
}

/// `p` with its balance of `o` changed by `shares` and `invested` added to its investment.
pub open spec fn position_after_trade(
    p: UserPosition,
    o: Outcome,
    shares: int,
    invested: int,
) -> UserPosition {
    match o {
        Outcome::Yes => UserPosition {
            yes_shares: (p.yes_shares + shares) as u64,
            total_invested: (p.total_invested + invested) as u64,
            ..p
        },
        Outcome::No => UserPosition {
            no_shares: (p.no_shares + shares) as u64,
            total_invested: (p.total_invested + invested) as u64,
            ..p
        },
    }
}

/// Shares a buy of `o` for `max_cost` hands out at the current pools.
pub open spec fn buy_quote_shares(ctx: BuyShares, o: Outcome, max_cost: u64) -> int {
    buy_shares_out(
        ctx.market.liquidity_of(o) as int,
        ctx.market.opposite_liquidity_of(o) as int,
        max_cost as int,
        ctx.protocol_state.free_bps as int,
    )
}

/// Fee a buy for `max_cost` pays.
pub open spec fn buy_quote_fee(ctx: BuyShares, max_cost: u64) -> int {
    fee_of(max_cost as int, ctx.protocol_state.free_bps as int)
}

/// Every counter a buy raises stays within 64 bits.
pub open spec fn buy_fits(ctx: BuyShares, o: Outcome, max_cost: u64) -> bool {
    let shares = buy_quote_shares(ctx, o, max_cost);
    let paid_in = max_cost - buy_quote_fee(ctx, max_cost);
    let p = opened_position(ctx);
    &&& ctx.market.liquidity_of(o) + paid_in <= u64::MAX
    &&& ctx.market.shares_of(o) + shares <= u64::MAX
    &&& ctx.market.total_volume + max_cost <= u64::MAX
    &&& p.shares_of(o) + shares <= u64::MAX
    &&& p.total_invested + max_cost <= u64::MAX
    &&& ctx.protocol_state.total_volume + max_cost <= u64::MAX
}

/// Why a buy is refused, if it is, checked in this order.
pub open spec fn buy_error(ctx: BuyShares, o: Outcome, max_cost: u64, now: i64) -> Option<
    ErrorCode,
> {
    if ctx.market.status != MarketStatus::Active {
        Some(ErrorCode::MarketNotActive)
    } else if now >= ctx.market.end_timestamp {
        Some(ErrorCode::MarketEnded)
    } else if !buy_defined(
        ctx.market.liquidity_of(o) as int,
        ctx.market.opposite_liquidity_of(o) as int,
        max_cost as int,
        ctx.protocol_state.free_bps as int,
    ) {
        Some(ErrorCode::MathOverflow)
    } else if buy_quote_shares(ctx, o, max_cost) <= 0 {
        Some(ErrorCode::InsufficientOutput)
    } else if !buy_fits(ctx, o, max_cost) {
        Some(ErrorCode::MathOverflow)
    } else {
        None
    }
}

/// The accounts after a successful buy.
pub open spec fn buy_effect(ctx: BuyShares, o: Outcome, max_cost: u64) -> BuyShares {
    let shares = buy_quote_shares(ctx, o, max_cost);
    let paid_in = max_cost - buy_quote_fee(ctx, max_cost);
    BuyShares {
        market: market_after_trade(ctx.market, o, paid_in, shares, max_cost as int),
        user_position: position_after_trade(opened_position(ctx), o, shares, max_cost as int),
        protocol_state: ProtocolState {
            total_volume: (ctx.protocol_state.total_volume + max_cost) as u64,
            ..ctx.protocol_state
        },
        ..ctx
    }
}

/// The payment net of fee goes to the market vault; a positive fee goes to the treasury.
pub open spec fn buy_transfers(ctx: BuyShares, max_cost: u64) -> Seq<TokenTransfer> {
    let fee = buy_quote_fee(ctx, max_cost);
    let to_vault = TokenTransfer {
        from: ctx.user_token_account,
        to: ctx.market_vault,
        authority: ctx.user,
        amount: (max_cost - fee) as u64,
    };
    if fee > 0 {
        seq![
            to_vault,
            TokenTransfer {
                from: ctx.user_token_account,
                to: ctx.protocol_state.treasury,
                authority: ctx.user,
                amount: fee as u64,
            },
        ]
    } else {
        seq![to_vault]
    }
}

/// Buys shares of `outcome` by spending exactly `max_cost`, at time `now`.
/// On success the accounts are updated and the transfers to perform are returned;
/// on failure nothing changes.
pub fn buy_shares(ctx: &mut BuyShares, outcome: Outcome, max_cost: u64, now: i64) -> (r: Result<
    Vec<TokenTransfer>,
    ErrorCode,
>)
    ensures
        match r {
            Ok(ts) => {
                &&& buy_error(*old(ctx), outcome, max_cost, now).is_none()
                &&& *final(ctx) == buy_effect(*old(ctx), outcome, max_cost)
                &&& ts@ == buy_transfers(*old(ctx), max_cost)
            },
            Err(e) => {
                &&& buy_error(*old(ctx), outcome, max_cost, now) == Some(e)
                &&& *final(ctx) == *old(ctx)
            },
        },
{
    if ctx.market.status != MarketStatus::Active {
        return Err(ErrorCode::MarketNotActive);
    }
    if now >= ctx.market.end_timestamp {
        return Err(ErrorCode::MarketEnded);
    }
    let (lo, lp, pool_shares) = match outcome {
        Outcome::Yes => (ctx.market.yes_liquidity, ctx.market.no_liquidity, ctx.market.total_yes_shares),
        Outcome::No => (ctx.market.no_liquidity, ctx.market.yes_liquidity, ctx.market.total_no_shares),
    };
    let (shares_out, actual_cost, fee) = match calculate_buy_shares(
        lo,
        lp,
        max_cost,
        ctx.protocol_state.free_bps,
    ) {
        Ok(q) => q,
        Err(e) => return Err(e),
    };
    if actual_cost > max_cost {
        return Err(ErrorCode::SlippageExceeded);
    }
    if shares_out == 0 {
        return Err(ErrorCode::InsufficientOutput);
    }
    let paid_in = actual_cost - fee;
    let (held, invested) = if ctx.user_position.initialized {
        (
            match outcome {
                Outcome::Yes => ctx.user_position.yes_shares,
                Outcome::No => ctx.user_position.no_shares,
            },
            ctx.user_position.total_invested,
        )
    } else {
        (0, 0)
    };
    let new_liquidity = match lo.checked_add(paid_in) {
        Some(v) => v,
        None => return Err(ErrorCode::MathOverflow),
    };
    let new_pool_shares = match pool_shares.checked_add(shares_out) {
        Some(v) => v,
        None => return Err(ErrorCode::MathOverflow),
    };
    let new_market_volume = match ctx.market.total_volume.checked_add(actual_cost) {
        Some(v) => v,
        None => return Err(ErrorCode::MathOverflow),
    };
    let new_held = match held.checked_add(shares_out) {
        Some(v) => v,
        None => return Err(ErrorCode::MathOverflow),
    };
    let new_invested = match invested.checked_add(actual_cost) {
        Some(v) => v,
        None => return Err(ErrorCode::MathOverflow),
    };
    let new_protocol_volume = match ctx.protocol_state.total_volume.checked_add(actual_cost) {
        Some(v) => v,
        None => return Err(ErrorCode::MathOverflow),
    };

    let mut transfers: Vec<TokenTransfer> = Vec::new();
    transfers.push(
        TokenTransfer {
            from: ctx.user_token_account,
            to: ctx.market_vault,
            authority: ctx.user,
            amount: paid_in,
        },
    );
    if fee > 0 {
        transfers.push(
            TokenTransfer {
                from: ctx.user_token_account,
                to: ctx.protocol_state.treasury,
                authority: ctx.user,
                amount: fee,
            },
        );
    }

    match outcome {
        Outcome::Yes => {
            ctx.market.yes_liquidity = new_liquidity;
            ctx.market.total_yes_shares = new_pool_shares;
        },
        Outcome::No => {
            ctx.market.no_liquidity = new_liquidity;
            ctx.market.total_no_shares = new_pool_shares;
        },
    }
    ctx.market.total_volume = new_market_volume;

    if !ctx.user_position.initialized {
        ctx.user_position.user = ctx.user;
        ctx.user_position.market = ctx.market_address;
        ctx.user_position.yes_shares = 0;
        ctx.user_position.no_shares = 0;
        ctx.user_position.total_invested = 0;
        ctx.user_position.initialized = true;
        ctx.user_position.bump = ctx.user_position_bump;
    }
    match outcome {
        Outcome::Yes => ctx.user_position.yes_shares = new_held,
        Outcome::No => ctx.user_position.no_shares = new_held,
    }
    ctx.user_position.total_invested = new_invested;
    ctx.protocol_state.total_volume = new_protocol_volume;
    proof {
        assert(transfers@ =~= buy_transfers(*old(ctx), max_cost));
    }
    Ok(transfers)
}

/// Gross payout of a sell of `shares_in` shares of `o` at the current pools.
pub open spec fn sell_quote_payout(ctx: SellShares, o: Outcome, shares_in: u64) -> int {
    sell_payout(
        ctx.market.liquidity_of(o) as int,
        ctx.market.opposite_liquidity_of(o) as int,
        shares_in as int,
    )
}

/// Fee taken from that payout.
pub open spec fn sell_quote_fee(ctx: SellShares, o: Outcome, shares_in: u64) -> int {
    fee_of(sell_quote_payout(ctx, o, shares_in), ctx.protocol_state.free_bps as int)
}

/// Why a sell is refused, if it is, checked in this order.
pub open spec fn sell_error(
    ctx: SellShares,
    o: Outcome,
    shares_in: u64,
    min_payout: u64,
    now: i64,
) -> Option<ErrorCode> {
    let payout = sell_quote_payout(ctx, o, shares_in);
    let fee = sell_quote_fee(ctx, o, shares_in);
    if ctx.market.status != MarketStatus::Active {
        Some(ErrorCode::MarketNotActive)
    } else if now >= ctx.market.end_timestamp {
        Some(ErrorCode::MarketEnded)
    } else if !ctx.user_position.initialized {
        Some(ErrorCode::NoPosition)
    } else if ctx.user_position.shares_of(o) < shares_in {
        Some(ErrorCode::InsufficientShares)
    } else if shares_in == 0 {
        Some(ErrorCode::InvalidAmount)
    } else if !sell_defined(
        ctx.market.liquidity_of(o) as int,
        ctx.market.opposite_liquidity_of(o) as int,
        shares_in as int,
        ctx.protocol_state.free_bps as int,
    ) || fee > payout {
        Some(ErrorCode::MathOverflow)
    } else if payout - fee < min_payout {
        Some(ErrorCode::SlippageExceeded)
    } else if ctx.market.shares_of(o) < shares_in || ctx.market.total_volume + payout
        > u64::MAX {
        Some(ErrorCode::MathOverflow)
    } else {
        None
    }
}

/// The accounts after a successful sell.
pub open spec fn sell_effect(ctx: SellShares, o: Outcome, shares_in: u64) -> SellShares {
    let payout = sell_quote_payout(ctx, o, shares_in);
    SellShares {
        market: market_after_trade(ctx.market, o, -payout, -shares_in, payout),
        user_position: position_after_trade(ctx.user_position, o, -shares_in, 0),
        ..ctx
    }
}

/// The payout net of fee goes from the vault to the trader; a positive fee goes
/// from the vault to the treasury.
pub open spec fn sell_transfers(ctx: SellShares, o: Outcome, shares_in: u64) -> Seq<
    TokenTransfer,
> {
    let payout = sell_quote_payout(ctx, o, shares_in);
    let fee = sell_quote_fee(ctx, o, shares_in);
    let to_user = TokenTransfer {
        from: ctx.market_vault,
        to: ctx.user_token_account,
        authority: ctx.market_address,
        amount: (payout - fee) as u64,
    };
    if fee > 0 {
        seq![
            to_user,
            TokenTransfer {
                from: ctx.market_vault,
                to: ctx.protocol_state.treasury,
                authority: ctx.market_address,
                amount: fee as u64,
            },
        ]
    } else {
        seq![to_user]
    }
}

/// Sells `shares_in` shares of `outcome` back to the pool at time `now`, refusing
/// a net payout below `min_payout`. On success the accounts are updated and the
/// transfers to perform are returned; on failure nothing changes.
pub fn sell_shares(
    ctx: &mut SellShares,
    outcome: Outcome,
    shares_in: u64,
    min_payout: u64,
    now: i64,
) -> (r: Result<Vec<TokenTransfer>, ErrorCode>)
    ensures
        match r {
            Ok(ts) => {
                &&& sell_error(*old(ctx), outcome, shares_in, min_payout, now).is_none()
                &&& *final(ctx) == sell_effect(*old(ctx), outcome, shares_in)
                &&& ts@ == sell_transfers(*old(ctx), outcome, shares_in)
            },
            Err(e) => {
                &&& sell_error(*old(ctx), outcome, shares_in, min_payout, now) == Some(e)
                &&& *final(ctx) == *old(ctx)
            },
        },
{
    if ctx.market.status != MarketStatus::Active {
        return Err(ErrorCode::MarketNotActive);
    }
    if now >= ctx.market.end_timestamp {
        return Err(ErrorCode::MarketEnded);
    }
    if !ctx.user_position.initialized {
        return Err(ErrorCode::NoPosition);
    }
    let user_shares = match outcome {
        Outcome::Yes => ctx.user_position.yes_shares,
        Outcome::No => ctx.user_position.no_shares,
    };
    if user_shares < shares_in {
        return Err(ErrorCode::InsufficientShares);
    }
    if shares_in == 0 {
        return Err(ErrorCode::InvalidAmount);
    }
    let (lo, lp, pool_shares) = match outcome {
        Outcome::Yes => (ctx.market.yes_liquidity, ctx.market.no_liquidity, ctx.market.total_yes_shares),
        Outcome::No => (ctx.market.no_liquidity, ctx.market.yes_liquidity, ctx.market.total_no_shares),
    };
    let (payout, fee) = match calculate_sell_shares(
        lo,
        lp,
        shares_in,
        ctx.protocol_state.free_bps,
    ) {
        Ok(q) => q,
        Err(e) => return Err(e),
    };
    let payout_after_fee = match payout.checked_sub(fee) {
        Some(v) => v,
        None => return Err(ErrorCode::MathOverflow),
    };
    if payout_after_fee < min_payout {
        return Err(ErrorCode::SlippageExceeded);
    }
    let new_liquidity = match lo.checked_sub(payout) {
        Some(v) => v,
        None => return Err(ErrorCode::MathOverflow),
    };
    let new_pool_shares = match pool_shares.checked_sub(shares_in) {
        Some(v) => v,
        None => return Err(ErrorCode::MathOverflow),
    };
    let new_market_volume = match ctx.market.total_volume.checked_add(payout) {
        Some(v) => v,
        None => return Err(ErrorCode::MathOverflow),
    };
    let new_held = user_shares - shares_in;

    let mut transfers: Vec<TokenTransfer> = Vec::new();
    transfers.push(
        TokenTransfer {
            from: ctx.market_vault,
            to: ctx.user_token_account,
            authority: ctx.market_address,
            amount: payout_after_fee,
        },
    );
    if fee > 0 {
        transfers.push(
            TokenTransfer {
                from: ctx.market_vault,
                to: ctx.protocol_state.treasury,
                authority: ctx.market_address,
                amount: fee,
            },
        );
    }

    match outcome {
        Outcome::Yes => {
            ctx.market.yes_liquidity = new_liquidity;
            ctx.market.total_yes_shares = new_pool_shares;
            ctx.user_position.yes_shares = new_held;
        },
        Outcome::No => {
            ctx.market.no_liquidity = new_liquidity;
            ctx.market.total_no_shares = new_pool_shares;
            ctx.user_position.no_shares = new_held;
        },
    }
    ctx.market.total_volume = new_market_volume;
    proof {
        assert(transfers@ =~= sell_transfers(*old(ctx), outcome, shares_in));
    }
    Ok(transfers)
}

} // verus!
