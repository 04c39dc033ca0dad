//! The persisted records: the factory configuration and one record per token.

use crate::identity::Identity;
use vstd::prelude::*;

verus! {

/// Most characters a token name may have.
pub const MAX_NAME_LEN: usize = 32;

/// Most characters a token symbol may have.
pub const MAX_SYMBOL_LEN: usize = 10;

/// Most characters a token description may have.
pub const MAX_DESCRIPTION_LEN: usize = 256;

/// The factory's one global record: who runs it, what it charges and when a
/// token graduates.
#[derive(Clone, Copy, Debug, PartialEq, Eq)]
pub struct FactoryConfig {
    /// Who may pause, unpause, hand over authority and recover funds.
    pub authority: Identity,
    /// Who receives the platform fee of every trade.
    pub platform_fee_recipient: Identity,
    /// Platform fee in basis points of the traded value.
    pub platform_fee_bps: u16,
    /// Creator fee in basis points of the traded value.
    pub creator_fee_bps: u16,
    /// Share of the traded tokens that is burned, in basis points.
    pub burn_fee_bps: u16,
    /// Deposits at which a token may graduate.
    pub graduation_threshold_sol: u64,
    /// How many tokens the factory has created.
    pub total_tokens_created: u64,
    /// While set, no token is created and nothing trades.
    pub paused: bool,
    /// Address-derivation byte of this record; carried, never interpreted.
    pub bump: u8,
}

impl FactoryConfig {
    /// Each fee is a share of the whole: at most 10000 basis points.
    pub open spec fn fees_in_range(self) -> bool {
        &&& self.platform_fee_bps <= 10000
        &&& self.creator_fee_bps <= 10000
        &&& self.burn_fee_bps <= 10000
    }
}

/// The record of one token: its curve, its accounts and where it stands in
/// its life.
#[derive(Clone, Debug, PartialEq, Eq)]
pub struct TokenState {
    /// The asset this record belongs to.
    pub mint: Identity,
    /// Who created the token and may claim the creator fees.
    pub creator: Identity,
    pub name: String,
    pub symbol: String,
    pub description: String,
    /// Curve reserve on the paying side.
    pub virtual_sol_reserve: u64,
    /// Curve reserve on the token side.
    pub virtual_token_reserve: u64,
    /// What buyers have put into the curve and sellers have not taken out.
    pub actual_sol_deposited: u64,
    /// Fixed at creation to the initial token reserve; bounds nothing.
    pub total_supply: u64,
    /// Tokens credited to buyers less tokens returned to the curve.
    pub circulating_supply: u64,
    /// Tokens taken as burn fee so far.
    pub burned_amount: u64,
    /// Creator fees accrued and not yet claimed.
    pub creator_unclaimed_fees: u64,
    /// Set once by graduation, never cleared.
    pub is_graduated: bool,
    /// Cleared by graduation and by recovery, never set again.
    pub trading_enabled: bool,
    /// When the token was created.
    pub created_at: i64,
    /// Address-derivation byte of this record; carried, never interpreted.
    pub bump: u8,
    /// Address-derivation byte of the escrow; carried, never interpreted.
    pub vault_bump: u8,
}

impl TokenState {
    /// The product of the two reserves, from which every trade is priced.
    pub open spec fn curve_product(self) -> int {
        self.virtual_sol_reserve * self.virtual_token_reserve
    }

    /// A graduated token does not trade.
    pub open spec fn lifecycle_ok(self) -> bool {
        self.is_graduated ==> !self.trading_enabled
    }

    /// The texts fit their limits.
    pub open spec fn texts_fit(self) -> bool {
        &&& self.name@.len() <= MAX_NAME_LEN
        &&& self.symbol@.len() <= MAX_SYMBOL_LEN
        &&& self.description@.len() <= MAX_DESCRIPTION_LEN
    }

    /// What holds of every record that the engine created and has worked on.
    pub open spec fn wf(self) -> bool {
        &&& self.texts_fit()
        &&& self.lifecycle_ok()
    }
}

} // verus!
