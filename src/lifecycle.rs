//! Protocol setup and the market lifecycle: creation, resolution, invalidation,
//! and the claims that settle positions afterwards.

use vstd::prelude::*;
use vstd::utf8::encode_utf8;

use crate::errors::ErrorCode;
use crate::laws::totals_match;
use crate::state::{
    key_eq, ClaimRefund, ClaimWinnings, CreateMarket, InitializeProtocol, InvalidateMarket, Market,
    MarketCategory, MarketStatus, Outcome, ProtocolState, ResolveMarket, TokenTransfer,
    UserPosition,
};

verus! {

/// Highest fee the protocol accepts, in basis points.
pub const MAX_FEE_BPS: u16 = 1000;

/// Longest question, in bytes.
pub const MAX_QUESTION_LEN: usize = 200;

/// Longest description, in bytes.
pub const MAX_DESCRIPTION_LEN: usize = 1000;

/// Longest oracle source, in bytes.
pub const MAX_ORACLE_SOURCE_LEN: usize = 100;

/// Smallest initial liquidity a market is created with.
pub const MIN_INITIAL_LIQUIDITY: u64 = 1_000_000;

/// Longest time, in seconds, between the end of trading and the resolution deadline.
pub const MAX_RESOLUTION_DELAY: i64 = 604_800;

/// Length of a string in bytes, as `str::len` reports it.
pub open spec fn byte_len(s: String) -> int {
    encode_utf8(s@).len() as usize as int
}

/// Why protocol initialization is refused, if it is.
pub open spec fn initialize_error(free_bps: u16) -> Option<ErrorCode> {
    if free_bps > MAX_FEE_BPS {
        Some(ErrorCode::FeeTooHigh)
    } else {
        None
    }
}

/// Sets up the protocol configuration with fee `free_bps` and zeroed counters.
pub fn initialize_protocol(ctx: &mut InitializeProtocol, free_bps: u16) -> (r: Result<
    (),
    ErrorCode,
>)
    ensures
        match r {
            Ok(_) => {
                &&& initialize_error(free_bps).is_none()
                &&& *final(ctx) == (InitializeProtocol {
                    protocol_state: ProtocolState {
                        authority: old(ctx).authority,
                        treasury: old(ctx).treasury,
                        free_bps,
                        total_markets: 0,
                        total_volume: 0,
                        bump: old(ctx).protocol_state_bump,
                    },
                    ..*old(ctx)
                })
            },
            Err(e) => {
                &&& initialize_error(free_bps) == Some(e)
                &&& *final(ctx) == *old(ctx)
            },
        },
{
    if free_bps > MAX_FEE_BPS {
        return Err(ErrorCode::FeeTooHigh);
    }
    ctx.protocol_state = ProtocolState {
        authority: ctx.authority,
        treasury: ctx.treasury,
        free_bps,
        total_markets: 0,
        total_volume: 0,
        bump: ctx.protocol_state_bump,
    };
    Ok(())
}

/// Why market creation is refused, if it is, checked in this order.
pub open spec fn create_market_error(
    ctx: CreateMarket,
    question: String,
    description: String,
    end_timestamp: i64,
    resolution_timestamp: i64,
    oracle_source: String,
    initial_liquidity: u64,
    now: i64,
) -> Option<ErrorCode> {
    if byte_len(question) > MAX_QUESTION_LEN {
        Some(ErrorCode::QuestionTooLong)
    } else if byte_len(description) > MAX_DESCRIPTION_LEN {
        Some(ErrorCode::DescriptionTooLong)
    } else if byte_len(oracle_source) > MAX_ORACLE_SOURCE_LEN {
        Some(ErrorCode::OracleSourceTooLong)
    } else if initial_liquidity < MIN_INITIAL_LIQUIDITY {
        Some(ErrorCode::InsufficientInitialLiquidity)
    } else if end_timestamp <= now {
        Some(ErrorCode::InvalidEndTime)
    } else if resolution_timestamp <= end_timestamp {
        Some(ErrorCode::InvalidResolutionTime)
    } else if resolution_timestamp > end_timestamp + MAX_RESOLUTION_DELAY {
        Some(ErrorCode::ResolutionTooLate)
    } else if ctx.protocol_state.total_markets == u64::MAX {
        Some(ErrorCode::MathOverflow)
    } else {
        None
    }
}

/// Creates market `market_id` at time `now`, seeding each pool with half of
/// `initial_liquidity`, all of which the creator deposits. No position exists
/// yet, so both share totals start at zero.
pub fn create_market(
    ctx: &mut CreateMarket,
    market_id: u64,
    question: String,
    description: String,
    category: MarketCategory,
    end_timestamp: i64,
    resolution_timestamp: i64,
    oracle_source: String,
    initial_liquidity: u64,
    now: i64,
) -> (r: Result<Vec<TokenTransfer>, ErrorCode>)
    ensures
        match r {
            Ok(ts) => {
                &&& create_market_error(
                    *old(ctx),
                    question,
                    description,
                    end_timestamp,
                    resolution_timestamp,
                    oracle_source,
                    initial_liquidity,
                    now,
                ).is_none()
                &&& final(ctx).market == (Market {
                    market_id,
                    authority: old(ctx).creator,
                    question,
                    description,
                    category,
                    created_at: now,
                    end_timestamp,
                    resolution_timestamp,
                    oracle_source,
                    status: MarketStatus::Active,
                    yes_liquidity: initial_liquidity / 2,
                    no_liquidity: initial_liquidity / 2,
                    total_yes_shares: 0,
                    total_no_shares: 0,
                    total_volume: 0,
                    winning_outcome: None,
                    bump: old(ctx).market_bump,
                })
                &&& totals_match(final(ctx).market, Seq::<UserPosition>::empty())
                &&& final(ctx).protocol_state == (ProtocolState {
                    total_markets: (old(ctx).protocol_state.total_markets + 1) as u64,
                    ..old(ctx).protocol_state
                })
                &&& final(ctx).market_bump == old(ctx).market_bump
                &&& final(ctx).market_vault == old(ctx).market_vault
                &&& final(ctx).creator == old(ctx).creator
                &&& final(ctx).creator_token_account == old(ctx).creator_token_account
                &&& ts@ == seq![
                    TokenTransfer {
                        from: old(ctx).creator_token_account,
                        to: old(ctx).market_vault,
                        authority: old(ctx).creator,
                        amount: initial_liquidity,
                    },
                ]
            },
            Err(e) => {
                &&& create_market_error(
                    *old(ctx),
                    question,
                    description,
                    end_timestamp,
                    resolution_timestamp,
                    oracle_source,
                    initial_liquidity,
                    now,
                ) == Some(e)
                &&& *final(ctx) == *old(ctx)
            },
        },
{
    if question.as_str().len() > MAX_QUESTION_LEN {
        return Err(ErrorCode::QuestionTooLong);
    }
    if description.as_str().len() > MAX_DESCRIPTION_LEN {
        return Err(ErrorCode::DescriptionTooLong);
    }
    if oracle_source.as_str().len() > MAX_ORACLE_SOURCE_LEN {
        return Err(ErrorCode::OracleSourceTooLong);
    }
    if initial_liquidity < MIN_INITIAL_LIQUIDITY {
        return Err(ErrorCode::InsufficientInitialLiquidity);
    }
    if end_timestamp <= now {
        return Err(ErrorCode::InvalidEndTime);
    }
    if resolution_timestamp <= end_timestamp {
        return Err(ErrorCode::InvalidResolutionTime);
    }
    if resolution_timestamp as i128 > end_timestamp as i128 + MAX_RESOLUTION_DELAY as i128 {
        return Err(ErrorCode::ResolutionTooLate);
    }
    let total_markets = match ctx.protocol_state.total_markets.checked_add(1) {
        Some(v) => v,
        None => return Err(ErrorCode::MathOverflow),
    };
    let half = initial_liquidity / 2;
    ctx.market = Market {
        market_id,
        authority: ctx.creator,
        question,
        description,
        category,
        created_at: now,
        end_timestamp,
        resolution_timestamp,
        oracle_source,
        status: MarketStatus::Active,
        yes_liquidity: half,
        no_liquidity: half,
        total_yes_shares: 0,
        total_no_shares: 0,
        total_volume: 0,
        winning_outcome: None,
        bump: ctx.market_bump,
    };
    ctx.protocol_state.total_markets = total_markets;
    let mut transfers: Vec<TokenTransfer> = Vec::new();
    transfers.push(
        TokenTransfer {
            from: ctx.creator_token_account,
            to: ctx.market_vault,
            authority: ctx.creator,
            amount: initial_liquidity,
        },
    );
    proof {
        assert(transfers@ =~= seq![
            TokenTransfer {
                from: old(ctx).creator_token_account,
                to: old(ctx).market_vault,
                authority: old(ctx).creator,
                amount: initial_liquidity,
            },
        ]);
    }
    Ok(transfers)
}

/// Why resolution is refused, if it is, checked in this order.
pub open spec fn resolve_error(ctx: ResolveMarket, now: i64) -> Option<ErrorCode> {
    if !(key_eq(ctx.oracle, ctx.market.authority) || key_eq(
        ctx.protocol_state.authority,
        ctx.oracle,
    )) {
        Some(ErrorCode::UnauthorizedOracle)
    } else if now < ctx.market.end_timestamp {
        Some(ErrorCode::MarketNotEnded)
    } else if now > ctx.market.resolution_timestamp {
        Some(ErrorCode::ResolutionDeadlinePassed)
    } else if ctx.market.status != MarketStatus::Active {
        Some(ErrorCode::AlreadyResolved)
    } else {
        None
    }
}

/// Resolves the market in favour of `winning_outcome` at time `now`.
pub fn resolve_market(ctx: &mut ResolveMarket, winning_outcome: Outcome, now: i64) -> (r: Result<
    (),
    ErrorCode,
>)
    ensures
        match r {
            Ok(_) => {
                &&& resolve_error(*old(ctx), now).is_none()
                &&& *final(ctx) == (ResolveMarket {
                    market: Market {
                        status: MarketStatus::Resolved,
                        winning_outcome: Some(winning_outcome),
                        ..old(ctx).market
                    },
                    ..*old(ctx)
                })
            },
            Err(e) => {
                &&& resolve_error(*old(ctx), now) == Some(e)
                &&& *final(ctx) == *old(ctx)
            },
        },
{
    let by_creator = ctx.oracle.same(&ctx.market.authority);
    let by_protocol = ctx.protocol_state.authority.same(&ctx.oracle);
    if !(by_creator || by_protocol) {
        return Err(ErrorCode::UnauthorizedOracle);
    }
    if now < ctx.market.end_timestamp {
        return Err(ErrorCode::MarketNotEnded);
    }
    if now > ctx.market.resolution_timestamp {
        return Err(ErrorCode::ResolutionDeadlinePassed);
    }
    if ctx.market.status != MarketStatus::Active {
        return Err(ErrorCode::AlreadyResolved);
    }
    ctx.market.status = MarketStatus::Resolved;
    ctx.market.winning_outcome = Some(winning_outcome);
    Ok(())
}

/// Why invalidation is refused, if it is, checked in this order.
pub open spec fn invalidate_error(ctx: InvalidateMarket) -> Option<ErrorCode> {
    if !key_eq(ctx.protocol_state.authority, ctx.authority) {
        Some(ErrorCode::Unauthorized)
    } else if ctx.market.status != MarketStatus::Active {
        Some(ErrorCode::InvalidMarketState)
    } else {
        None
    }
}

/// Marks an active market invalid, which opens refunds.
pub fn invalidate_market(ctx: &mut InvalidateMarket) -> (r: Result<(), ErrorCode>)
    ensures
        match r {
            Ok(_) => {
                &&& invalidate_error(*old(ctx)).is_none()
                &&& *final(ctx) == (InvalidateMarket {
                    market: Market { status: MarketStatus::Invalid, ..old(ctx).market },
                    ..*old(ctx)
                })
            },
            Err(e) => {
                &&& invalidate_error(*old(ctx)) == Some(e)
                &&& *final(ctx) == *old(ctx)
            },
        },
{
    if !ctx.protocol_state.authority.same(&ctx.authority) {
        return Err(ErrorCode::Unauthorized);
    }
    if ctx.market.status != MarketStatus::Active {
        return Err(ErrorCode::InvalidMarketState);
    }
    ctx.market.status = MarketStatus::Invalid;
    Ok(())
}

/// Why a claim of winnings is refused, if it is, checked in this order.
pub open spec fn claim_winnings_error(ctx: ClaimWinnings) -> Option<ErrorCode> {
    if ctx.market.status != MarketStatus::Resolved || ctx.market.winning_outcome.is_none() {
        Some(ErrorCode::MarketNotResolved)
    } else if !ctx.user_position.initialized {
        Some(ErrorCode::NoPosition)
    } else if ctx.user_position.shares_of(ctx.market.winning_outcome.unwrap()) == 0 {
        Some(ErrorCode::NoWinningShares)
    } else if ctx.market.shares_of(ctx.market.winning_outcome.unwrap())
        < ctx.user_position.shares_of(ctx.market.winning_outcome.unwrap()) {
        Some(ErrorCode::MathOverflow)
    } else {
        None
    }
}

/// `m` with `yes` shares of yes and `no` shares of no taken out of its totals.
pub open spec fn market_without_shares(m: Market, yes: int, no: int) -> Market {
    Market {
        total_yes_shares: (m.total_yes_shares - yes) as u64,
        total_no_shares: (m.total_no_shares - no) as u64,
        ..m
    }
}

/// Shares of `o` out of `n`: `n` for `o` itself, zero for the other outcome.
pub open spec fn shares_on(o: Outcome, target: Outcome, n: int) -> int {
    if o == target {
        n
    } else {
        0
    }
}

/// `p` with no shares of `o` left.
pub open spec fn position_without(p: UserPosition, o: Outcome) -> UserPosition {
    match o {
        Outcome::Yes => UserPosition { yes_shares: 0, ..p },
        Outcome::No => UserPosition { no_shares: 0, ..p },
    }
}

/// The accounts after a successful claim of winnings.
pub open spec fn claim_winnings_effect(ctx: ClaimWinnings) -> ClaimWinnings {
    let w = ctx.market.winning_outcome.unwrap();
    let n = ctx.user_position.shares_of(w) as int;
    ClaimWinnings {
        market: market_without_shares(
            ctx.market,
            shares_on(Outcome::Yes, w, n),
            shares_on(Outcome::No, w, n),
        ),
        user_position: position_without(ctx.user_position, w),
        ..ctx
    }
}

/// Pays the position one unit per share of the winning outcome, clears those
/// shares, and takes them out of the market's total for that outcome.
pub fn claim_winnings(ctx: &mut ClaimWinnings) -> (r: Result<Vec<TokenTransfer>, ErrorCode>)
    ensures
        match r {
            Ok(ts) => {
                let w = old(ctx).market.winning_outcome.unwrap();
                &&& claim_winnings_error(*old(ctx)).is_none()
                &&& *final(ctx) == claim_winnings_effect(*old(ctx))
                &&& ts@ == seq![
                    TokenTransfer {
                        from: old(ctx).market_vault,
                        to: old(ctx).user_token_account,
                        authority: old(ctx).market_address,
                        amount: old(ctx).user_position.shares_of(w),
                    },
                ]
            },
            Err(e) => {
                &&& claim_winnings_error(*old(ctx)) == Some(e)
                &&& *final(ctx) == *old(ctx)
            },
        },
{
    if ctx.market.status != MarketStatus::Resolved {
        return Err(ErrorCode::MarketNotResolved);
    }
    let winning_outcome = match ctx.market.winning_outcome {
        Some(o) => o,
        None => return Err(ErrorCode::MarketNotResolved),
    };
    if !ctx.user_position.initialized {
        return Err(ErrorCode::NoPosition);
    }
    let winning_shares = match winning_outcome {
        Outcome::Yes => ctx.user_position.yes_shares,
        Outcome::No => ctx.user_position.no_shares,
    };
    if winning_shares == 0 {
        return Err(ErrorCode::NoWinningShares);
    }
    let market_shares = match winning_outcome {
        Outcome::Yes => ctx.market.total_yes_shares,
        Outcome::No => ctx.market.total_no_shares,
    };
    if market_shares < winning_shares {
        return Err(ErrorCode::MathOverflow);
    }
    let mut transfers: Vec<TokenTransfer> = Vec::new();
    transfers.push(
        TokenTransfer {
            from: ctx.market_vault,
            to: ctx.user_token_account,
            authority: ctx.market_address,
            amount: winning_shares,
        },
    );
    match winning_outcome {
        Outcome::Yes => {
            ctx.market.total_yes_shares = market_shares - winning_shares;
            ctx.user_position.yes_shares = 0;
        },
        Outcome::No => {
            ctx.market.total_no_shares = market_shares - winning_shares;
            ctx.user_position.no_shares = 0;
        },
    }
    proof {
        assert(transfers@ =~= seq![
            TokenTransfer {
                from: old(ctx).market_vault,
                to: old(ctx).user_token_account,
                authority: old(ctx).market_address,
                amount: winning_shares,
            },
        ]);
    }
    Ok(transfers)
}

/// Why a claim of refund is refused, if it is, checked in this order.
pub open spec fn claim_refund_error(ctx: ClaimRefund) -> Option<ErrorCode> {
    let total = ctx.user_position.yes_shares + ctx.user_position.no_shares;
    if ctx.market.status != MarketStatus::Invalid {
        Some(ErrorCode::MarketNotInvalid)
    } else if !ctx.user_position.initialized {
        Some(ErrorCode::NoPosition)
    } else if total > u64::MAX {
        Some(ErrorCode::MathOverflow)
    } else if total == 0 {
        Some(ErrorCode::NoPosition)
    } else if ctx.market.total_yes_shares < ctx.user_position.yes_shares
        || ctx.market.total_no_shares < ctx.user_position.no_shares {
        Some(ErrorCode::MathOverflow)
    } else {
        None
    }
}

/// The accounts after a successful claim of refund.
pub open spec fn claim_refund_effect(ctx: ClaimRefund) -> ClaimRefund {
    ClaimRefund {
        market: market_without_shares(
            ctx.market,
            ctx.user_position.yes_shares as int,
            ctx.user_position.no_shares as int,
        ),
        user_position: UserPosition { yes_shares: 0, no_shares: 0, ..ctx.user_position },
        ..ctx
    }
}

/// Pays the position one unit per share of either outcome, clears both balances,
/// and takes them out of the market's share totals.
pub fn claim_refund(ctx: &mut ClaimRefund) -> (r: Result<Vec<TokenTransfer>, ErrorCode>)
    ensures
        match r {
            Ok(ts) => {
                &&& claim_refund_error(*old(ctx)).is_none()
                &&& *final(ctx) == claim_refund_effect(*old(ctx))
                &&& ts@ == seq![
                    TokenTransfer {
                        from: old(ctx).market_vault,
                        to: old(ctx).user_token_account,
                        authority: old(ctx).market_address,
                        amount: (old(ctx).user_position.yes_shares
                            + old(ctx).user_position.no_shares) as u64,
                    },
                ]
            },
            Err(e) => {
                &&& claim_refund_error(*old(ctx)) == Some(e)
                &&& *final(ctx) == *old(ctx)
            },
        },
{
    if ctx.market.status != MarketStatus::Invalid {
        return Err(ErrorCode::MarketNotInvalid);
    }
    if !ctx.user_position.initialized {
        return Err(ErrorCode::NoPosition);
    }
    let total_shares = match ctx.user_position.yes_shares.checked_add(ctx.user_position.no_shares) {
        Some(v) => v,
        None => return Err(ErrorCode::MathOverflow),
    };
    if total_shares == 0 {
        return Err(ErrorCode::NoPosition);
    }
    if ctx.market.total_yes_shares < ctx.user_position.yes_shares
        || ctx.market.total_no_shares < ctx.user_position.no_shares {
        return Err(ErrorCode::MathOverflow);
    }
    let mut transfers: Vec<TokenTransfer> = Vec::new();
    transfers.push(
        TokenTransfer {
            from: ctx.market_vault,
            to: ctx.user_token_account,
            authority: ctx.market_address,
            amount: total_shares,
        },
    );
    ctx.market.total_yes_shares = ctx.market.total_yes_shares - ctx.user_position.yes_shares;
    ctx.market.total_no_shares = ctx.market.total_no_shares - ctx.user_position.no_shares;
    ctx.user_position.yes_shares = 0;
    ctx.user_position.no_shares = 0;
    proof {
        assert(transfers@ =~= seq![
            TokenTransfer {
                from: old(ctx).market_vault,
                to: old(ctx).user_token_account,
                authority: old(ctx).market_address,
                amount: total_shares,
            },
        ]);
    }
    Ok(transfers)
}

} // verus!
