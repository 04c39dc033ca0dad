//! Graduation: the one-way step from trading on the curve to having left it.
//!
//! A token is either trading or graduated. Anyone may ask for graduation once
//! the deposits have reached the threshold; it cannot be undone.

use crate::errors::BonkrError;
use crate::events::TokenGraduated;
use crate::state::{FactoryConfig, TokenState};
use vstd::prelude::*;

verus! {

/// What graduation reads and writes.
#[derive(Clone, Debug, PartialEq, Eq)]
pub struct Graduate {
    /// The factory's configuration; graduation reads the threshold from it.
    pub factory_config: FactoryConfig,
    /// The record of the token that is to graduate.
    pub token_state: TokenState,
}

/// Why graduation is refused, if it is: the token has graduated already, or
/// its deposits are still below the threshold.
pub open spec fn graduate_rejection(ctx: Graduate) -> Option<BonkrError> {
    if ctx.token_state.is_graduated {
        Some(BonkrError::TokenGraduated)
    } else if ctx.token_state.actual_sol_deposited < ctx.factory_config.graduation_threshold_sol {
        Some(BonkrError::NotReadyToGraduate)
    } else {
        None
    }
}

/// The token record after graduation: graduated, and trading off.
pub open spec fn graduated_token_state(token: TokenState) -> TokenState {
    TokenState { is_graduated: true, trading_enabled: false, ..token }
}

/// The announcement of a graduation: what was raised and what circulates.
pub open spec fn graduation_event(ctx: Graduate, now: i64) -> TokenGraduated {
    TokenGraduated {
        mint: ctx.token_state.mint,
        sol_raised: ctx.token_state.actual_sol_deposited,
        circulating_supply: ctx.token_state.circulating_supply,
        timestamp: now,
    }
}

/// What `graduate` leaves behind, accepted or refused.
pub open spec fn graduate_outcome(ctx: Graduate) -> Graduate {
    if graduate_rejection(ctx) is None {
        Graduate { token_state: graduated_token_state(ctx.token_state), ..ctx }
    } else {
        ctx
    }
}

/// Graduates the token at the time `now` and returns what to announce.
///
/// Anyone may call. A token that has graduated, or whose deposits are below
/// the threshold, is refused and left as it was.
pub fn graduate(ctx: &mut Graduate, now: i64) -> (result: Result<TokenGraduated, BonkrError>)
    ensures
        match result {
            Ok(event) => {
                &&& graduate_rejection(*old(ctx)) is None
                &&& event == graduation_event(*old(ctx), now)
            },
            Err(e) => graduate_rejection(*old(ctx)) == Some(e),
        },
        *final(ctx) == graduate_outcome(*old(ctx)),
{
    if ctx.token_state.is_graduated {
        return Err(BonkrError::TokenGraduated);
    }
    if ctx.token_state.actual_sol_deposited < ctx.factory_config.graduation_threshold_sol {
        return Err(BonkrError::NotReadyToGraduate);
    }
    ctx.token_state.is_graduated = true;
    ctx.token_state.trading_enabled = false;
    Ok(
        TokenGraduated {
            mint: ctx.token_state.mint,
            sol_raised: ctx.token_state.actual_sol_deposited,
            circulating_supply: ctx.token_state.circulating_supply,
            timestamp: now,
        },
    )
}

} // verus!
