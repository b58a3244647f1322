//! The records the instructions read and write, and what each instruction is given.

use vstd::prelude::*;

verus! {

/// Length of an account address in bytes.
pub const KEY_LEN: usize = 32;

/// An account address, as its 32 raw bytes.
#[derive(Clone, Copy, Debug, PartialEq, Eq)]
pub struct AccountKey {
    pub bytes: [u8; 32],
}

/// Two addresses name the same account.
pub open spec fn key_eq(a: AccountKey, b: AccountKey) -> bool {
    a.bytes@ == b.bytes@
}

impl AccountKey {
    pub fn new(bytes: [u8; 32]) -> (r: AccountKey)
        ensures
            r.bytes@ == bytes@,
    {
        AccountKey { bytes }
    }

    /// Compares two addresses byte by byte.
    pub fn same(&self, other: &AccountKey) -> (r: bool)
        ensures
            r == key_eq(*self, *other),
    {
        let mut i: usize = 0;
        while i < KEY_LEN
            invariant
                i <= KEY_LEN,
                self.bytes@.len() == KEY_LEN,
                other.bytes@.len() == KEY_LEN,
                forall|j: int| 0 <= j < i ==> self.bytes@[j] == other.bytes@[j],
            decreases KEY_LEN - i,
        {
            if self.bytes[i] != other.bytes[i] {
                return false;
            }
            i = i + 1;
        }
        assert(self.bytes@ =~= other.bytes@);
        true
    }
}

#[derive(Clone, Copy, Debug, PartialEq, Eq, Structural)]
pub enum Outcome {
    Yes,
    No,
}

#[derive(Clone, Copy, Debug, PartialEq, Eq, Structural)]
pub enum MarketStatus {
    Active,
    Resolved,
    Invalid,
}

#[derive(Clone, Copy, Debug, PartialEq, Eq, Structural)]
pub enum MarketCategory {
    Sports,
    Politics,
    Crypto,
    Economics,
    Entertainment,
    Science,
    Other,
}

/// Process-wide configuration and counters.
#[derive(Clone, Copy, Debug)]
pub struct ProtocolState {
    pub authority: AccountKey,
    pub treasury: AccountKey,
    pub free_bps: u16,
    pub total_markets: u64,
    pub total_volume: u64,
    pub bump: u8,
}

/// One binary market: its metadata, its two pools and its lifecycle.
#[derive(Clone, Debug)]
pub struct Market {
    pub market_id: u64,
    pub authority: AccountKey,
    pub question: String,
    pub description: String,
    pub category: MarketCategory,
    pub created_at: i64,
    pub end_timestamp: i64,
    pub resolution_timestamp: i64,
    pub oracle_source: String,
    pub status: MarketStatus,
    pub yes_liquidity: u64,
    pub no_liquidity: u64,
    pub total_yes_shares: u64,
    pub total_no_shares: u64,
    pub total_volume: u64,
    pub winning_outcome: Option<Outcome>,
    pub bump: u8,
}

impl Market {
    /// A winning outcome is recorded exactly when the market is resolved.
    pub open spec fn wf(&self) -> bool {
        self.winning_outcome.is_some() <==> self.status == MarketStatus::Resolved
    }

    /// Reserve of the pool of `o`.
    pub open spec fn liquidity_of(&self, o: Outcome) -> u64 {
        match o {
            Outcome::Yes => self.yes_liquidity,
            Outcome::No => self.no_liquidity,
        }
    }

    /// Reserve of the pool facing `o`.
    pub open spec fn opposite_liquidity_of(&self, o: Outcome) -> u64 {
        match o {
            Outcome::Yes => self.no_liquidity,
            Outcome::No => self.yes_liquidity,
        }
    }

    /// Shares of `o` outstanding.
    pub open spec fn shares_of(&self, o: Outcome) -> u64 {
        match o {
            Outcome::Yes => self.total_yes_shares,
            Outcome::No => self.total_no_shares,
        }
    }
}

/// One user's holdings in one market.
#[derive(Clone, Copy, Debug)]
pub struct UserPosition {
    pub user: AccountKey,
    pub market: AccountKey,
    pub yes_shares: u64,
    pub no_shares: u64,
    pub total_invested: u64,
    pub initialized: bool,
    pub bump: u8,
}

impl UserPosition {
    /// A position that has never traded.
    pub fn empty(user: AccountKey, market: AccountKey) -> (r: UserPosition)
        ensures
            r.user == user,
            r.market == market,
            r.yes_shares == 0,
            r.no_shares == 0,
            r.total_invested == 0,
            !r.initialized,
            r.bump == 0,
    {
        UserPosition {
            user,
            market,
            yes_shares: 0,
            no_shares: 0,
            total_invested: 0,
            initialized: false,
            bump: 0,
        }
    }

    /// Shares of `o` held.
    pub open spec fn shares_of(&self, o: Outcome) -> u64 {
        match o {
            Outcome::Yes => self.yes_shares,
            Outcome::No => self.no_shares,
        }
    }
}

/// A movement of `amount` tokens from one token account to another, signed by `authority`.
#[derive(Clone, Copy, Debug, PartialEq, Eq)]
pub struct TokenTransfer {
    pub from: AccountKey,
    pub to: AccountKey,
    pub authority: AccountKey,
    pub amount: u64,
}

/// What protocol initialization reads and writes.
#[derive(Clone, Copy, Debug)]
pub struct InitializeProtocol {
    pub protocol_state: ProtocolState,
    pub authority: AccountKey,
    pub treasury: AccountKey,
    pub protocol_state_bump: u8,
}

/// What market creation reads and writes.
#[derive(Clone, Debug)]
pub struct CreateMarket {
    pub market: Market,
    pub market_bump: u8,
    pub market_vault: AccountKey,
    pub protocol_state: ProtocolState,
    pub creator: AccountKey,
    pub creator_token_account: AccountKey,
}

/// What a buy reads and writes.
#[derive(Clone, Debug)]
pub struct BuyShares {
    pub market: Market,
    pub market_address: AccountKey,
    pub market_vault: AccountKey,
    pub user_position: UserPosition,
    pub user_position_bump: u8,
    pub protocol_state: ProtocolState,
    pub user: AccountKey,
    pub user_token_account: AccountKey,
}

/// What a sell reads and writes.
#[derive(Clone, Debug)]
pub struct SellShares {
    pub market: Market,
    pub market_address: AccountKey,
    pub market_vault: AccountKey,
    pub user_position: UserPosition,
    pub protocol_state: ProtocolState,
    pub user: AccountKey,
    pub user_token_account: AccountKey,
}

/// What resolution reads and writes.
#[derive(Clone, Debug)]
pub struct ResolveMarket {
    pub market: Market,
    pub protocol_state: ProtocolState,
    pub oracle: AccountKey,
}

/// What a claim of winnings reads and writes.
#[derive(Clone, Debug)]
pub struct ClaimWinnings {
    pub market: Market,
    pub market_address: AccountKey,
    pub market_vault: AccountKey,
    pub user_position: UserPosition,
    pub user: AccountKey,
    pub user_token_account: AccountKey,
}

/// What invalidation reads and writes.
#[derive(Clone, Debug)]
pub struct InvalidateMarket {
    pub market: Market,
    pub protocol_state: ProtocolState,
    pub authority: AccountKey,
}

/// What a claim of refund reads and writes.
#[derive(Clone, Debug)]
pub struct ClaimRefund {
    pub market: Market,
    pub market_address: AccountKey,
    pub market_vault: AccountKey,
    pub user_position: UserPosition,
    pub user: AccountKey,
    pub user_token_account: AccountKey,
}

} // verus!
