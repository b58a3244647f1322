use kalshi::errors::ErrorCode;
use kalshi::state::{
    AccountKey, BuyShares, Market, MarketCategory, MarketStatus, Outcome, ProtocolState,
    SellShares, TokenTransfer, UserPosition,
};
use kalshi::trade::{buy_shares, sell_shares};

fn key(b: u8) -> AccountKey {
    AccountKey::new([b; 32])
}

fn market(yes: u64, no: u64) -> Market {
    Market {
        market_id: 1,
        authority: key(3),
        question: "Q".to_string(),
        description: "D".to_string(),
        category: MarketCategory::Economics,
        created_at: 0,
        end_timestamp: 1_000,
        resolution_timestamp: 2_000,
        oracle_source: "O".to_string(),
        status: MarketStatus::Active,
        yes_liquidity: yes,
        no_liquidity: no,
        total_yes_shares: yes,
        total_no_shares: no,
        total_volume: 0,
        winning_outcome: None,
        bump: 0,
    }
}

fn protocol(fee: u16) -> ProtocolState {
    ProtocolState {
        authority: key(1),
        treasury: key(2),
        free_bps: fee,
        total_markets: 1,
        total_volume: 0,
        bump: 0,
    }
}

fn buy_ctx(m: Market, fee: u16) -> BuyShares {
    BuyShares {
        market: m,
        market_address: key(11),
        market_vault: key(10),
        user_position: UserPosition::empty(AccountKey::new([0; 32]), AccountKey::new([0; 32])),
        user_position_bump: 4,
        protocol_state: protocol(fee),
        user: key(5),
        user_token_account: key(12),
    }
}

fn sell_ctx(from: &BuyShares) -> SellShares {
    SellShares {
        market: from.market.clone(),
        market_address: from.market_address,
        market_vault: from.market_vault,
        user_position: from.user_position,
        protocol_state: from.protocol_state,
        user: from.user,
        user_token_account: from.user_token_account,
    }
}

#[test]
fn buy_updates_pool_position_and_counters() {
    let mut ctx = buy_ctx(market(1_000_000, 1_000_000), 200);
    let transfers = buy_shares(&mut ctx, Outcome::Yes, 100_000, 999).unwrap();
    assert_eq!(
        transfers,
        vec![
            TokenTransfer { from: key(12), to: key(10), authority: key(5), amount: 98_000 },
            TokenTransfer { from: key(12), to: key(2), authority: key(5), amount: 2_000 },
        ]
    );
    assert_eq!(ctx.market.yes_liquidity, 1_098_000);
    assert_eq!(ctx.market.no_liquidity, 1_000_000);
    assert_eq!(ctx.market.total_yes_shares, 1_089_254);
    assert_eq!(ctx.market.total_no_shares, 1_000_000);
    assert_eq!(ctx.market.total_volume, 100_000);
    assert!(ctx.user_position.initialized);
    assert_eq!(ctx.user_position.user, key(5));
    assert_eq!(ctx.user_position.market, key(11));
    assert_eq!(ctx.user_position.bump, 4);
    assert_eq!(ctx.user_position.yes_shares, 89_254);
    assert_eq!(ctx.user_position.no_shares, 0);
    assert_eq!(ctx.user_position.total_invested, 100_000);
    assert_eq!(ctx.protocol_state.total_volume, 100_000);
}

#[test]
fn buy_without_fee_makes_one_transfer() {
    let mut ctx = buy_ctx(market(1_000_000, 1_000_000), 0);
    let transfers = buy_shares(&mut ctx, Outcome::No, 10_000, 0).unwrap();
    assert_eq!(transfers.len(), 1);
    assert_eq!(transfers[0].amount, 10_000);
    assert_eq!(ctx.market.no_liquidity, 1_010_000);
    assert_eq!(ctx.user_position.no_shares, 9_901);
}

#[test]
fn buy_refusals_leave_accounts_unchanged() {
    let mut ctx = buy_ctx(market(1_000_000, 1_000_000), 200);
    assert_eq!(buy_shares(&mut ctx, Outcome::Yes, 100, 1_000), Err(ErrorCode::MarketEnded));
    ctx.market.status = MarketStatus::Invalid;
    assert_eq!(buy_shares(&mut ctx, Outcome::Yes, 100, 0), Err(ErrorCode::MarketNotActive));
    ctx.market.status = MarketStatus::Active;
    assert_eq!(buy_shares(&mut ctx, Outcome::Yes, 0, 0), Err(ErrorCode::InsufficientOutput));
    ctx.market.total_yes_shares = u64::MAX;
    assert_eq!(buy_shares(&mut ctx, Outcome::Yes, 100, 0), Err(ErrorCode::MathOverflow));
    assert_eq!(ctx.market.yes_liquidity, 1_000_000);
    assert!(!ctx.user_position.initialized);
    assert_eq!(ctx.protocol_state.total_volume, 0);
}

#[test]
fn buy_on_empty_pool_is_an_arithmetic_error() {
    let mut ctx = buy_ctx(market(0, 1_000), 0);
    assert_eq!(buy_shares(&mut ctx, Outcome::Yes, 0, 0), Err(ErrorCode::MathOverflow));
}

#[test]
fn sell_pays_out_and_debits_pool() {
    let mut b = buy_ctx(market(1_000_000, 1_000_000), 200);
    buy_shares(&mut b, Outcome::Yes, 100_000, 0).unwrap();
    let mut ctx = sell_ctx(&b);
    let transfers = sell_shares(&mut ctx, Outcome::Yes, 89_254, 0, 10).unwrap();
    // k = 1_098_000 * 1_000_000, new opposite 1_089_254, new outcome 1_008_029
    assert_eq!(
        transfers,
        vec![
            TokenTransfer { from: key(10), to: key(12), authority: key(11), amount: 88_172 },
            TokenTransfer { from: key(10), to: key(2), authority: key(11), amount: 1_799 },
        ]
    );
    assert_eq!(ctx.market.yes_liquidity, 1_008_029);
    assert_eq!(ctx.market.total_yes_shares, 1_000_000);
    assert_eq!(ctx.market.total_volume, 100_000 + 89_971);
    assert_eq!(ctx.user_position.yes_shares, 0);
    assert_eq!(ctx.protocol_state.total_volume, 100_000);
}

#[test]
fn sell_refusals_leave_accounts_unchanged() {
    let mut b = buy_ctx(market(1_000_000, 1_000_000), 200);
    let mut ctx = sell_ctx(&b);
    assert_eq!(sell_shares(&mut ctx, Outcome::Yes, 1, 0, 0), Err(ErrorCode::NoPosition));
    buy_shares(&mut b, Outcome::No, 10_000, 0).unwrap();
    let mut ctx = sell_ctx(&b);
    let held = ctx.user_position.no_shares;
    assert_eq!(sell_shares(&mut ctx, Outcome::No, 1, 0, 1_000), Err(ErrorCode::MarketEnded));
    assert_eq!(
        sell_shares(&mut ctx, Outcome::No, held + 1, 0, 0),
        Err(ErrorCode::InsufficientShares)
    );
    assert_eq!(sell_shares(&mut ctx, Outcome::Yes, 1, 0, 0), Err(ErrorCode::InsufficientShares));
    assert_eq!(sell_shares(&mut ctx, Outcome::No, 0, 0, 0), Err(ErrorCode::InvalidAmount));
    assert_eq!(
        sell_shares(&mut ctx, Outcome::No, held, u64::MAX, 0),
        Err(ErrorCode::SlippageExceeded)
    );
    ctx.market.status = MarketStatus::Resolved;
    assert_eq!(sell_shares(&mut ctx, Outcome::No, 1, 0, 0), Err(ErrorCode::MarketNotActive));
    assert_eq!(ctx.user_position.no_shares, held);
    assert_eq!(ctx.market.no_liquidity, 1_010_000 - 200);
}

#[test]
fn trades_keep_share_totals_equal_to_positions() {
    // pools seeded with no outstanding holders: totals start at zero
    let mut m = market(1_000_000, 1_000_000);
    m.total_yes_shares = 0;
    m.total_no_shares = 0;
    let mut alice = buy_ctx(m, 100);
    buy_shares(&mut alice, Outcome::Yes, 50_000, 0).unwrap();
    buy_shares(&mut alice, Outcome::No, 20_000, 0).unwrap();
    let mut bob = buy_ctx(alice.market.clone(), 100);
    bob.user = key(6);
    buy_shares(&mut bob, Outcome::Yes, 30_000, 0).unwrap();
    let mut sell = sell_ctx(&alice);
    sell.market = bob.market.clone();
    let half = alice.user_position.yes_shares / 2;
    sell_shares(&mut sell, Outcome::Yes, half, 0, 0).unwrap();
    let positions = [sell.user_position, bob.user_position];
    let yes: u64 = positions.iter().map(|p| p.yes_shares).sum();
    let no: u64 = positions.iter().map(|p| p.no_shares).sum();
    assert_eq!(sell.market.total_yes_shares, yes);
    assert_eq!(sell.market.total_no_shares, no);
}

#[test]
fn buy_keeps_curve_product_within_rounding() {
    let mut ctx = buy_ctx(market(1_000_000, 1_000_000), 200);
    buy_shares(&mut ctx, Outcome::Yes, 100_000, 0).unwrap();
    let new_outcome: u128 = 1_098_000;
    let new_opposite: u128 = 1_000_000 - ctx.user_position.yes_shares as u128;
    assert_eq!(new_opposite, 910_746);
    let k: u128 = 1_000_000_000_000;
    assert!(new_outcome * new_opposite <= k);
    assert!(k < new_outcome * (new_opposite + 1));
}

#[test]
fn sell_without_fee_makes_one_transfer() {
    let mut b = buy_ctx(market(1_000_000, 1_000_000), 0);
    buy_shares(&mut b, Outcome::Yes, 10_000, 0).unwrap();
    let mut ctx = sell_ctx(&b);
    let held = ctx.user_position.yes_shares;
    let transfers = sell_shares(&mut ctx, Outcome::Yes, held, 0, 0).unwrap();
    assert_eq!(transfers.len(), 1);
    assert_eq!(transfers[0].from, key(10));
    assert_eq!(transfers[0].to, key(12));
    assert_eq!(transfers[0].authority, key(11));
    assert_eq!(ctx.user_position.yes_shares, 0);
}

#[test]
fn error_messages_name_the_refusal() {
    assert_eq!(ErrorCode::FeeTooHigh.message(), "Fee cannot exceed 10%");
    assert_eq!(ErrorCode::MarketNotInvalid.message(), "Market is not marked as invalid");
    assert_eq!(ErrorCode::MathOverflow.message(), "Arithmetic overflow");
}

#[test]
fn account_keys_compare_by_bytes() {
    let mut bytes = [7u8; 32];
    assert!(key(7).same(&AccountKey::new(bytes)));
    bytes[31] = 8;
    assert!(!key(7).same(&AccountKey::new(bytes)));
}
