//! Setting up the factory and creating tokens.

use crate::errors::BonkrError;
use crate::events::TokenCreated;
use crate::identity::Identity;
use crate::state::{FactoryConfig, TokenState, MAX_DESCRIPTION_LEN, MAX_NAME_LEN, MAX_SYMBOL_LEN};
use vstd::prelude::*;
use vstd::string::StrSliceExecFns;

verus! {

/// What setting up the factory reads and writes.
#[derive(Clone, Copy, Debug, PartialEq, Eq)]
pub struct Initialize {
    /// The configuration record to fill.
    pub factory_config: FactoryConfig,
    /// Who sets the factory up; they become its authority and receive its
    /// platform fees.
    pub authority: Identity,
    /// Address-derivation byte of the configuration record.
    pub factory_config_bump: u8,
}

/// The configuration of a factory that was just set up.
pub open spec fn initial_factory_config(
    ctx: Initialize,
    platform_fee_bps: u16,
    creator_fee_bps: u16,
    burn_fee_bps: u16,
    graduation_threshold_sol: u64,
) -> FactoryConfig {
    FactoryConfig {
        authority: ctx.authority,
        platform_fee_recipient: ctx.authority,
        platform_fee_bps,
        creator_fee_bps,
        burn_fee_bps,
        graduation_threshold_sol,
        total_tokens_created: 0,
        paused: false,
        bump: ctx.factory_config_bump,
    }
}

/// Sets the factory up: whoever calls becomes authority and fee recipient,
/// the fees and the threshold are as given, nothing is created yet and
/// nothing is paused.
///
/// The fees are taken as given. Rates above 10000 basis points are stored
/// too; trades under them are refused where a fee exceeds what it is taken
/// from.
pub fn initialize(
    ctx: &mut Initialize,
    platform_fee_bps: u16,
    creator_fee_bps: u16,
    burn_fee_bps: u16,
    graduation_threshold_sol: u64,
) -> (result: Result<(), BonkrError>)
    ensures
        result is Ok,
        final(ctx).factory_config == initial_factory_config(
            *old(ctx),
            platform_fee_bps,
            creator_fee_bps,
            burn_fee_bps,
            graduation_threshold_sol,
        ),
        final(ctx).authority == old(ctx).authority,
        final(ctx).factory_config_bump == old(ctx).factory_config_bump,
        final(ctx).factory_config.fees_in_range() <==> platform_fee_bps <= 10000 && creator_fee_bps
            <= 10000 && burn_fee_bps <= 10000,
{
    ctx.factory_config.authority = ctx.authority;
    ctx.factory_config.platform_fee_recipient = ctx.authority;
    ctx.factory_config.platform_fee_bps = platform_fee_bps;
    ctx.factory_config.creator_fee_bps = creator_fee_bps;
    ctx.factory_config.burn_fee_bps = burn_fee_bps;
    ctx.factory_config.graduation_threshold_sol = graduation_threshold_sol;
    ctx.factory_config.total_tokens_created = 0;
    ctx.factory_config.paused = false;
    ctx.factory_config.bump = ctx.factory_config_bump;
    Ok(())
}

/// What creating a token reads and writes.
#[derive(Clone, Debug, PartialEq, Eq)]
pub struct CreateToken {
    /// The factory's configuration; creation counts the token in it.
    pub factory_config: FactoryConfig,
    /// The record to fill for the new token.
    pub token_state: TokenState,
    /// The asset the token is.
    pub token_mint: Identity,
    /// Who creates the token.
    pub creator: Identity,
    /// Address-derivation byte of the token record.
    pub token_state_bump: u8,
    /// Address-derivation byte of the token's escrow.
    pub sol_vault_bump: u8,
}

/// Why the creation of a token is refused, if it is. The first reason that
/// applies is given.
pub open spec fn create_token_rejection(ctx: CreateToken, name: Seq<char>, symbol: Seq<char>)
    -> Option<BonkrError> {
    if ctx.factory_config.paused {
        Some(BonkrError::ContractPaused)
    } else if name.len() > MAX_NAME_LEN {
        Some(BonkrError::NameTooLong)
    } else if symbol.len() > MAX_SYMBOL_LEN {
        Some(BonkrError::SymbolTooLong)
    } else if ctx.factory_config.total_tokens_created == u64::MAX {
        Some(BonkrError::MathOverflow)
    } else {
        None
    }
}

/// The record of a token that was just created: the curve starts at the given
/// reserves, the total supply is the initial token reserve, nothing is
/// deposited, circulating, burned or accrued, and trading is on.
pub open spec fn created_token_state(
    ctx: CreateToken,
    name: String,
    symbol: String,
    description: String,
    initial_virtual_sol: u64,
    initial_virtual_tokens: u64,
    now: i64,
) -> TokenState {
    TokenState {
        mint: ctx.token_mint,
        creator: ctx.creator,
        name,
        symbol,
        description,
        virtual_sol_reserve: initial_virtual_sol,
        virtual_token_reserve: initial_virtual_tokens,
        actual_sol_deposited: 0,
        total_supply: initial_virtual_tokens,
        circulating_supply: 0,
        burned_amount: 0,
        creator_unclaimed_fees: 0,
        is_graduated: false,
        trading_enabled: true,
        created_at: now,
        bump: ctx.token_state_bump,
        vault_bump: ctx.sol_vault_bump,
    }
}

/// The announcement of a token that was just created.
pub open spec fn created_event(
    ctx: CreateToken,
    name: String,
    symbol: String,
    initial_virtual_tokens: u64,
    now: i64,
) -> TokenCreated {
    TokenCreated {
        mint: ctx.token_mint,
        creator: ctx.creator,
        name,
        symbol,
        total_supply: initial_virtual_tokens,
        timestamp: now,
    }
}

/// Creates a token at the time `now`: fills its record, counts it in the
/// factory and returns what to announce.
///
/// A name of more than 32 characters or a symbol of more than 10 is refused.
/// The description is stored as given; the record's texts fit their limits
/// when it has at most 256 characters. A refused creation leaves everything
/// as it was.
pub fn create_token(
    ctx: &mut CreateToken,
    name: String,
    symbol: String,
    description: String,
    initial_virtual_sol: u64,
    initial_virtual_tokens: u64,
    now: i64,
) -> (result: Result<TokenCreated, BonkrError>)
    ensures
        match result {
            Ok(event) => {
                &&& create_token_rejection(*old(ctx), name@, symbol@) is None
                &&& event == created_event(*old(ctx), name, symbol, initial_virtual_tokens, now)
                &&& *final(ctx) == (CreateToken {
                    factory_config: FactoryConfig {
                        total_tokens_created: (old(ctx).factory_config.total_tokens_created
                            + 1) as u64,
                        ..old(ctx).factory_config
                    },
                    token_state: created_token_state(
                        *old(ctx),
                        name,
                        symbol,
                        description,
                        initial_virtual_sol,
                        initial_virtual_tokens,
                        now,
                    ),
                    ..*old(ctx)
                })
                &&& description@.len() <= MAX_DESCRIPTION_LEN ==> final(ctx).token_state.wf()
            },
            Err(e) => {
                &&& create_token_rejection(*old(ctx), name@, symbol@) == Some(e)
                &&& *final(ctx) == *old(ctx)
            },
        },
{
    if ctx.factory_config.paused {
        return Err(BonkrError::ContractPaused);
    }
    if name.as_str().unicode_len() > MAX_NAME_LEN {
        return Err(BonkrError::NameTooLong);
    }
    if symbol.as_str().unicode_len() > MAX_SYMBOL_LEN {
        return Err(BonkrError::SymbolTooLong);
    }
    let created = match ctx.factory_config.total_tokens_created.checked_add(1) {
        Some(count) => count,
        None => { return Err(BonkrError::MathOverflow); },
    };
    let event = TokenCreated {
        mint: ctx.token_mint,
        creator: ctx.creator,
        name: name.clone(),
        symbol: symbol.clone(),
        total_supply: initial_virtual_tokens,
        timestamp: now,
    };
    ctx.token_state.mint = ctx.token_mint;
    ctx.token_state.creator = ctx.creator;
    ctx.token_state.name = name;
    ctx.token_state.symbol = symbol;
    ctx.token_state.description = description;
    ctx.token_state.virtual_sol_reserve = initial_virtual_sol;
    ctx.token_state.virtual_token_reserve = initial_virtual_tokens;
    ctx.token_state.actual_sol_deposited = 0;
    ctx.token_state.total_supply = initial_virtual_tokens;
    ctx.token_state.circulating_supply = 0;
    ctx.token_state.burned_amount = 0;
    ctx.token_state.creator_unclaimed_fees = 0;
    ctx.token_state.is_graduated = false;
    ctx.token_state.trading_enabled = true;
    ctx.token_state.created_at = now;
    ctx.token_state.bump = ctx.token_state_bump;
    ctx.token_state.vault_bump = ctx.sol_vault_bump;
    ctx.factory_config.total_tokens_created = created;
    Ok(event)
}

} // verus!
