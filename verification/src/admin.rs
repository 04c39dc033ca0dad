//! The controls of the factory's authority: pausing, handing over authority,
//! and the emergency recovery of a token's escrow.

use crate::errors::BonkrError;
use crate::identity::Identity;
use crate::state::{FactoryConfig, TokenState};
use vstd::prelude::*;

verus! {

/// What pausing and unpausing read and write.
#[derive(Clone, Copy, Debug, PartialEq, Eq)]
pub struct AdminAction {
    /// The factory's configuration.
    pub factory_config: FactoryConfig,
    /// Who calls.
    pub authority: Identity,
}

/// The configuration with the pause flag set as given and all else kept.
pub open spec fn with_paused(config: FactoryConfig, paused: bool) -> FactoryConfig {
    FactoryConfig { paused, ..config }
}

/// Pauses the factory: until it is unpaused no token is created and nothing
/// trades. Only the authority may; anyone else is refused and changes
/// nothing.
pub fn pause(ctx: &mut AdminAction) -> (result: Result<(), BonkrError>)
    ensures
        final(ctx).authority == old(ctx).authority,
        old(ctx).authority == old(ctx).factory_config.authority ==> result is Ok
            && final(ctx).factory_config == with_paused(old(ctx).factory_config, true),
        old(ctx).authority != old(ctx).factory_config.authority ==> result == Err::<
            (),
            BonkrError,
        >(BonkrError::UnauthorizedAdmin) && *final(ctx) == *old(ctx),
{
    if !(ctx.authority == ctx.factory_config.authority) {
        return Err(BonkrError::UnauthorizedAdmin);
    }
    ctx.factory_config.paused = true;
    Ok(())
}

/// Lifts the pause. Only the authority may; anyone else is refused and
/// changes nothing.
pub fn unpause(ctx: &mut AdminAction) -> (result: Result<(), BonkrError>)
    ensures
        final(ctx).authority == old(ctx).authority,
        old(ctx).authority == old(ctx).factory_config.authority ==> result is Ok
            && final(ctx).factory_config == with_paused(old(ctx).factory_config, false),
        old(ctx).authority != old(ctx).factory_config.authority ==> result == Err::<
            (),
            BonkrError,
        >(BonkrError::UnauthorizedAdmin) && *final(ctx) == *old(ctx),
{
    if !(ctx.authority == ctx.factory_config.authority) {
        return Err(BonkrError::UnauthorizedAdmin);
    }
    ctx.factory_config.paused = false;
    Ok(())
}

/// What handing over authority reads and writes.
#[derive(Clone, Copy, Debug, PartialEq, Eq)]
pub struct TransferAuthority {
    /// The factory's configuration.
    pub factory_config: FactoryConfig,
    /// Who calls.
    pub authority: Identity,
    /// Who is to be the authority from now on.
    pub new_authority: Identity,
}

/// Hands the authority over in one step; the new authority confirms nothing.
/// Only the authority may; anyone else is refused and changes nothing.
pub fn transfer_authority(ctx: &mut TransferAuthority) -> (result: Result<(), BonkrError>)
    ensures
        final(ctx).authority == old(ctx).authority,
        final(ctx).new_authority == old(ctx).new_authority,
        old(ctx).authority == old(ctx).factory_config.authority ==> result is Ok
            && final(ctx).factory_config == (FactoryConfig {
            authority: old(ctx).new_authority,
            ..old(ctx).factory_config
        }),
        old(ctx).authority != old(ctx).factory_config.authority ==> result == Err::<
            (),
            BonkrError,
        >(BonkrError::UnauthorizedAdmin) && *final(ctx) == *old(ctx),
{
    if !(ctx.authority == ctx.factory_config.authority) {
        return Err(BonkrError::UnauthorizedAdmin);
    }
    ctx.factory_config.authority = ctx.new_authority;
    Ok(())
}

/// What the emergency recovery reads and writes.
#[derive(Clone, Debug, PartialEq, Eq)]
pub struct AdminRecovery {
    /// The factory's configuration; recovery reads it and leaves it as it is.
    pub factory_config: FactoryConfig,
    /// The record of the token whose escrow is swept.
    pub token_state: TokenState,
    /// What the token's escrow holds when the call is made.
    pub sol_vault: u64,
    /// Who calls.
    pub authority: Identity,
}

/// What a recovery sweeps: all that the escrow holds above the minimum it
/// must retain, and nothing when it holds less.
pub open spec fn recoverable(sol_vault: u64, minimum_retained: u64) -> int {
    if sol_vault >= minimum_retained {
        sol_vault - minimum_retained
    } else {
        0
    }
}

/// Why a recovery is refused, if it is. The first reason that applies is
/// given.
pub open spec fn admin_recovery_rejection(ctx: AdminRecovery, minimum_retained: u64) -> Option<
    BonkrError,
> {
    if ctx.authority != ctx.factory_config.authority {
        Some(BonkrError::UnauthorizedAdmin)
    } else if ctx.token_state.is_graduated {
        Some(BonkrError::TokenGraduated)
    } else if recoverable(ctx.sol_vault, minimum_retained) == 0 {
        Some(BonkrError::NoFundsToRecover)
    } else {
        None
    }
}

/// The token record after a recovery: nothing deposited, nothing accrued for
/// the creator, no reserve on the paying side, and trading off for good.
pub open spec fn recovered_token_state(token: TokenState) -> TokenState {
    TokenState {
        actual_sol_deposited: 0,
        creator_unclaimed_fees: 0,
        trading_enabled: false,
        virtual_sol_reserve: 0,
        ..token
    }
}

/// Sweeps a token's escrow in an emergency. Returns the amount that the
/// ledger is to pay from the escrow to the authority: all the escrow holds
/// above `minimum_retained`.
///
/// Only the authority may, and only before the token graduates. The creator's
/// unclaimed fees are forfeited without record, and the token never trades
/// again. A refused recovery leaves everything as it was.
pub fn admin_recovery(ctx: &mut AdminRecovery, minimum_retained: u64) -> (result: Result<
    u64,
    BonkrError,
>)
    ensures
        match result {
            Ok(amount) => {
                &&& admin_recovery_rejection(*old(ctx), minimum_retained) is None
                &&& amount == recoverable(old(ctx).sol_vault, minimum_retained)
                &&& amount > 0
                &&& *final(ctx) == (AdminRecovery {
                    token_state: recovered_token_state(old(ctx).token_state),
                    ..*old(ctx)
                })
            },
            Err(e) => {
                &&& admin_recovery_rejection(*old(ctx), minimum_retained) == Some(e)
                &&& *final(ctx) == *old(ctx)
            },
        },
{
    if !(ctx.authority == ctx.factory_config.authority) {
        return Err(BonkrError::UnauthorizedAdmin);
    }
    if ctx.token_state.is_graduated {
        return Err(BonkrError::TokenGraduated);
    }
    let amount = ctx.sol_vault.saturating_sub(minimum_retained);
    if amount == 0 {
        return Err(BonkrError::NoFundsToRecover);
    }
    ctx.token_state.actual_sol_deposited = 0;
    ctx.token_state.creator_unclaimed_fees = 0;
    ctx.token_state.trading_enabled = false;
    ctx.token_state.virtual_sol_reserve = 0;
    Ok(amount)
}

} // verus!
