//! The fee distributor: how the value of a trade is split between the
//! platform, the creator and the burn.
//!
//! Fees are stated in basis points, one hundredth of a percent, and every
//! share is rounded down. All arithmetic is on 64-bit quantities; whatever
//! does not fit is refused with [`BonkrError::MathOverflow`].

use crate::errors::BonkrError;
use crate::identity::Identity;
use crate::state::TokenState;
use vstd::arithmetic::div_mod::{lemma_div_is_ordered, lemma_div_multiples_vanish};
use vstd::arithmetic::mul::{lemma_mul_inequality, lemma_mul_is_commutative};
use vstd::prelude::*;

verus! {

/// Basis points in a whole.
pub const BPS_DENOMINATOR: u64 = 10000;

/// The share of `amount` that a fee of `bps` basis points takes, rounded down.
pub open spec fn fee_share(amount: int, bps: int) -> int {
    (amount * bps) / 10000
}

/// What is left of `amount` after a fee of `bps` basis points.
pub open spec fn after_fee(amount: int, bps: int) -> int {
    amount - fee_share(amount, bps)
}

/// A fee is never negative, and a fee of at most 10000 basis points never
/// takes more than the amount.
pub proof fn lemma_fee_share_bounds(amount: int, bps: int)
    requires
        0 <= amount,
        0 <= bps,
    ensures
        0 <= fee_share(amount, bps),
        bps <= 10000 ==> fee_share(amount, bps) <= amount,
        bps >= 10000 ==> fee_share(amount, bps) >= amount,
{
    assert(0 <= amount * bps) by (nonlinear_arith)
        requires
            0 <= amount,
            0 <= bps,
    ;
    lemma_div_is_ordered(0, amount * bps, 10000);
    lemma_mul_is_commutative(amount, 10000);
    lemma_div_multiples_vanish(amount, 10000);
    if bps <= 10000 {
        lemma_mul_is_commutative(amount, bps);
        lemma_mul_inequality(bps, 10000, amount);
        lemma_div_is_ordered(amount * bps, amount * 10000, 10000);
    }
    if bps >= 10000 {
        lemma_mul_is_commutative(amount, bps);
        lemma_mul_inequality(10000, bps, amount);
        lemma_div_is_ordered(amount * 10000, amount * bps, 10000);
    }
}

/// A larger amount or a higher rate never gives a smaller fee.
pub proof fn lemma_fee_share_monotonic(amount1: int, bps1: int, amount2: int, bps2: int)
    requires
        0 <= amount1 <= amount2,
        0 <= bps1 <= bps2,
    ensures
        fee_share(amount1, bps1) <= fee_share(amount2, bps2),
{
    assert(amount1 * bps1 <= amount2 * bps2) by (nonlinear_arith)
        requires
            0 <= amount1 <= amount2,
            0 <= bps1 <= bps2,
    ;
    lemma_div_is_ordered(amount1 * bps1, amount2 * bps2, 10000);
}

/// At a rate of at most 10000 basis points, a larger amount never leaves
/// less after the fee.
pub proof fn lemma_after_fee_monotonic(amount1: int, amount2: int, bps: int)
    requires
        0 <= amount1 <= amount2,
        0 <= bps <= 10000,
    ensures
        after_fee(amount1, bps) <= after_fee(amount2, bps),
{
    // The fee on the larger amount exceeds the fee on the smaller by at most
    // the difference of the amounts.
    let d = amount2 - amount1;
    assert(amount2 * bps == amount1 * bps + d * bps) by (nonlinear_arith)
        requires
            d == amount2 - amount1,
    ;
    assert(d * bps <= d * 10000) by (nonlinear_arith)
        requires
            0 <= d,
            0 <= bps <= 10000,
    ;
    assert((amount1 * bps + d * 10000) / 10000 == (amount1 * bps) / 10000 + d)
        by (nonlinear_arith);
    lemma_div_is_ordered(amount2 * bps, amount1 * bps + d * 10000, 10000);
}

/// The fee of `bps` basis points on `amount`, rounded down.
///
/// Refused when `amount * bps` does not fit in 64 bits, although the fee
/// itself would.
pub fn take_fee(amount: u64, bps: u16) -> (fee: Result<u64, BonkrError>)
    ensures
        match fee {
            Ok(f) => amount * bps <= u64::MAX && f == fee_share(amount as int, bps as int),
            Err(e) => amount * bps > u64::MAX && e == BonkrError::MathOverflow,
        },
{
    match amount.checked_mul(bps as u64) {
        Some(scaled) => Ok(scaled / BPS_DENOMINATOR),
        None => Err(BonkrError::MathOverflow),
    }
}

/// A traded value split into the platform's fee, the creator's fee and the
/// rest.
#[derive(Clone, Copy, Debug, PartialEq, Eq, Structural)]
pub struct ValueSplit {
    /// Paid to the platform at once.
    pub platform_fee: u64,
    /// Accrued for the creator.
    pub creator_fee: u64,
    /// The value less both fees.
    pub net: u64,
}

/// Whether `gross` can be split at these rates: both scaled products fit in 64
/// bits and the two fees together do not exceed the value.
pub open spec fn value_split_fits(gross: int, platform_fee_bps: int, creator_fee_bps: int) -> bool {
    &&& gross * platform_fee_bps <= u64::MAX
    &&& gross * creator_fee_bps <= u64::MAX
    &&& fee_share(gross, platform_fee_bps) + fee_share(gross, creator_fee_bps) <= gross
}

/// The value less the platform's and the creator's fee.
pub open spec fn value_after_fees(gross: int, platform_fee_bps: int, creator_fee_bps: int) -> int {
    gross - fee_share(gross, platform_fee_bps) - fee_share(gross, creator_fee_bps)
}

/// Splits a traded value into platform fee, creator fee and the rest.
pub fn split_value(gross: u64, platform_fee_bps: u16, creator_fee_bps: u16) -> (split: Result<
    ValueSplit,
    BonkrError,
>)
    ensures
        match split {
            Ok(s) => {
                &&& value_split_fits(gross as int, platform_fee_bps as int, creator_fee_bps as int)
                &&& s.platform_fee == fee_share(gross as int, platform_fee_bps as int)
                &&& s.creator_fee == fee_share(gross as int, creator_fee_bps as int)
                &&& s.net == value_after_fees(
                    gross as int,
                    platform_fee_bps as int,
                    creator_fee_bps as int,
                )
            },
            Err(e) => {
                &&& !value_split_fits(gross as int, platform_fee_bps as int, creator_fee_bps as int)
                &&& e == BonkrError::MathOverflow
            },
        },
{
    let platform_fee = take_fee(gross, platform_fee_bps)?;
    let creator_fee = take_fee(gross, creator_fee_bps)?;
    let after_platform = match gross.checked_sub(platform_fee) {
        Some(rest) => rest,
        None => {
            proof {
                lemma_fee_share_bounds(gross as int, creator_fee_bps as int);
            }
            return Err(BonkrError::MathOverflow);
        },
    };
    match after_platform.checked_sub(creator_fee) {
        Some(net) => Ok(ValueSplit { platform_fee, creator_fee, net }),
        None => Err(BonkrError::MathOverflow),
    }
}

/// A token amount split into the burn and the rest.
#[derive(Clone, Copy, Debug, PartialEq, Eq, Structural)]
pub struct TokenSplit {
    /// Taken as burn fee.
    pub burn_amount: u64,
    /// The amount less the burn.
    pub net: u64,
}

/// Whether the burn can be taken from `amount`: the scaled product fits in 64
/// bits and the burn does not exceed the amount.
pub open spec fn token_split_fits(amount: int, burn_fee_bps: int) -> bool {
    &&& amount * burn_fee_bps <= u64::MAX
    &&& fee_share(amount, burn_fee_bps) <= amount
}

/// Splits a token amount into the burn and the rest.
pub fn split_tokens(amount: u64, burn_fee_bps: u16) -> (split: Result<TokenSplit, BonkrError>)
    ensures
        match split {
            Ok(s) => {
                &&& token_split_fits(amount as int, burn_fee_bps as int)
                &&& s.burn_amount == fee_share(amount as int, burn_fee_bps as int)
                &&& s.net == after_fee(amount as int, burn_fee_bps as int)
            },
            Err(e) => {
                &&& !token_split_fits(amount as int, burn_fee_bps as int)
                &&& e == BonkrError::MathOverflow
            },
        },
{
    let burn_amount = take_fee(amount, burn_fee_bps)?;
    match amount.checked_sub(burn_amount) {
        Some(net) => Ok(TokenSplit { burn_amount, net }),
        None => Err(BonkrError::MathOverflow),
    }
}

/// What claiming the creator's fees reads and writes.
#[derive(Clone, Debug, PartialEq, Eq)]
pub struct ClaimCreatorFees {
    /// The record of the token whose fees are claimed.
    pub token_state: TokenState,
    /// Who calls.
    pub creator: Identity,
}

/// Why a claim is refused, if it is: the caller is not the token's creator,
/// or nothing has accrued.
pub open spec fn claim_rejection(ctx: ClaimCreatorFees) -> Option<BonkrError> {
    if ctx.creator != ctx.token_state.creator {
        Some(BonkrError::UnauthorizedCreator)
    } else if ctx.token_state.creator_unclaimed_fees == 0 {
        Some(BonkrError::NoFeesToClaim)
    } else {
        None
    }
}

/// Claims all the fees accrued for the creator. Returns the amount that the
/// ledger is to pay from the escrow to the creator, and leaves nothing
/// accrued.
///
/// Only the token's creator may. A refused claim leaves everything as it was.
pub fn claim_creator_fees(ctx: &mut ClaimCreatorFees) -> (result: Result<u64, BonkrError>)
    ensures
        match result {
            Ok(amount) => {
                &&& claim_rejection(*old(ctx)) is None
                &&& amount == old(ctx).token_state.creator_unclaimed_fees
                &&& amount > 0
                &&& *final(ctx) == (ClaimCreatorFees {
                    token_state: TokenState {
                        creator_unclaimed_fees: 0,
                        ..old(ctx).token_state
                    },
                    ..*old(ctx)
                })
            },
            Err(e) => {
                &&& claim_rejection(*old(ctx)) == Some(e)
                &&& *final(ctx) == *old(ctx)
            },
        },
{
    if !(ctx.creator == ctx.token_state.creator) {
        return Err(BonkrError::UnauthorizedCreator);
    }
    if ctx.token_state.creator_unclaimed_fees == 0 {
        return Err(BonkrError::NoFeesToClaim);
    }
    let amount = ctx.token_state.creator_unclaimed_fees;
    ctx.token_state.creator_unclaimed_fees = 0;
    Ok(amount)
}

} // verus!
