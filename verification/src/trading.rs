//! Buying from and selling to the curve.
//!
//! A purchase takes the platform's and the creator's fee from the value paid
//! in, prices the rest on the curve, and takes the burn from the tokens that
//! come out. A sale mirrors it: the burn is taken from the tokens handed in,
//! the rest is priced on the curve, and the two fees are taken from the value
//! that comes out.

use crate::curve::{lemma_product_never_grows, reserve_out_after, swap, swap_fits, swap_output};
use crate::errors::BonkrError;
use crate::events::ReadyToGraduate;
use crate::fees::{
    after_fee,
    fee_share,
    split_tokens,
    split_value,
    token_split_fits,
    value_after_fees,
    value_split_fits,
};
use crate::state::{FactoryConfig, TokenState};
use vstd::prelude::*;

verus! {

/// The records one trade reads and writes.
#[derive(Clone, Debug, PartialEq, Eq)]
pub struct Trade {
    /// The factory's configuration; a trade reads it and leaves it as it is.
    pub factory_config: FactoryConfig,
    /// The record of the token that is traded.
    pub token_state: TokenState,
}

/// What stops every trade on this token, if anything: a paused factory, then
/// trading switched off, then graduation.
pub open spec fn trading_gate(ctx: Trade) -> Option<BonkrError> {
    if ctx.factory_config.paused {
        Some(BonkrError::ContractPaused)
    } else if !ctx.token_state.trading_enabled {
        Some(BonkrError::TradingDisabled)
    } else if ctx.token_state.is_graduated {
        Some(BonkrError::TokenGraduated)
    } else {
        None
    }
}

fn check_trading_gate(ctx: &Trade) -> (result: Result<(), BonkrError>)
    ensures
        match result {
            Ok(_) => trading_gate(*ctx) is None,
            Err(e) => trading_gate(*ctx) == Some(e),
        },
{
    if ctx.factory_config.paused {
        Err(BonkrError::ContractPaused)
    } else if !ctx.token_state.trading_enabled {
        Err(BonkrError::TradingDisabled)
    } else if ctx.token_state.is_graduated {
        Err(BonkrError::TokenGraduated)
    } else {
        Ok(())
    }
}

/// What the ledger has to do for an accepted purchase, and how the value paid
/// in was split.
#[derive(Clone, Copy, Debug, PartialEq, Eq)]
pub struct BuyReceipt {
    /// To transfer from the buyer to the platform's fee recipient.
    pub platform_fee: u64,
    /// Accrued for the creator; it goes into the escrow with the rest.
    pub creator_fee: u64,
    /// The value that was priced on the curve.
    pub sol_after_fees: u64,
    /// To transfer from the buyer into the escrow: the priced value and the
    /// creator's fee.
    pub escrow_deposit: u64,
    /// The tokens that left the curve.
    pub tokens_out: u64,
    /// The part of them that is burned and never minted.
    pub burn_amount: u64,
    /// To mint to the buyer.
    pub tokens_to_user: u64,
    /// To announce, when the deposits now reach the graduation threshold.
    pub ready_to_graduate: Option<ReadyToGraduate>,
}

/// The platform's fee on a purchase of `sol_amount`.
pub open spec fn buy_platform_fee(ctx: Trade, sol_amount: u64) -> int {
    fee_share(sol_amount as int, ctx.factory_config.platform_fee_bps as int)
}

/// The creator's fee on a purchase of `sol_amount`.
pub open spec fn buy_creator_fee(ctx: Trade, sol_amount: u64) -> int {
    fee_share(sol_amount as int, ctx.factory_config.creator_fee_bps as int)
}

/// The value of a purchase that is priced on the curve.
pub open spec fn buy_sol_after_fees(ctx: Trade, sol_amount: u64) -> int {
    value_after_fees(
        sol_amount as int,
        ctx.factory_config.platform_fee_bps as int,
        ctx.factory_config.creator_fee_bps as int,
    )
}

/// What a purchase sends into the escrow: the value that is priced, and the
/// creator's fee.
pub open spec fn buy_escrow_deposit(ctx: Trade, sol_amount: u64) -> int {
    buy_sol_after_fees(ctx, sol_amount) + buy_creator_fee(ctx, sol_amount)
}

/// The tokens that leave the curve on a purchase.
pub open spec fn buy_tokens_out(ctx: Trade, sol_amount: u64) -> int {
    swap_output(
        ctx.token_state.virtual_sol_reserve as int,
        ctx.token_state.virtual_token_reserve as int,
        buy_sol_after_fees(ctx, sol_amount),
    )
}

/// The burn taken from the tokens of a purchase.
pub open spec fn buy_burn_amount(ctx: Trade, sol_amount: u64) -> int {
    fee_share(buy_tokens_out(ctx, sol_amount), ctx.factory_config.burn_fee_bps as int)
}

/// The tokens a purchase credits to the buyer.
pub open spec fn buy_tokens_to_user(ctx: Trade, sol_amount: u64) -> int {
    after_fee(buy_tokens_out(ctx, sol_amount), ctx.factory_config.burn_fee_bps as int)
}

/// Whether a purchase can be priced in 64-bit arithmetic: the fees can be
/// taken, the curve can be moved, and the burn can be taken.
pub open spec fn buy_priced(ctx: Trade, sol_amount: u64) -> bool {
    &&& value_split_fits(
        sol_amount as int,
        ctx.factory_config.platform_fee_bps as int,
        ctx.factory_config.creator_fee_bps as int,
    )
    &&& swap_fits(
        ctx.token_state.virtual_sol_reserve as int,
        ctx.token_state.virtual_token_reserve as int,
        buy_sol_after_fees(ctx, sol_amount),
    )
    &&& token_split_fits(buy_tokens_out(ctx, sol_amount), ctx.factory_config.burn_fee_bps as int)
}

/// Whether the record has room for what a purchase adds to its counters.
pub open spec fn buy_booked(ctx: Trade, sol_amount: u64) -> bool {
    &&& ctx.token_state.creator_unclaimed_fees + buy_creator_fee(ctx, sol_amount) <= u64::MAX
    &&& ctx.token_state.actual_sol_deposited + buy_sol_after_fees(ctx, sol_amount) <= u64::MAX
    &&& ctx.token_state.circulating_supply + buy_tokens_to_user(ctx, sol_amount) <= u64::MAX
    &&& ctx.token_state.burned_amount + buy_burn_amount(ctx, sol_amount) <= u64::MAX
}

/// Why a purchase is refused, if it is. The first reason that applies is
/// given.
pub open spec fn buy_rejection(ctx: Trade, sol_amount: u64, min_tokens_out: u64) -> Option<
    BonkrError,
> {
    if trading_gate(ctx) is Some {
        trading_gate(ctx)
    } else if sol_amount == 0 {
        Some(BonkrError::InvalidAmount)
    } else if !buy_priced(ctx, sol_amount) {
        Some(BonkrError::MathOverflow)
    } else if buy_tokens_to_user(ctx, sol_amount) < min_tokens_out {
        Some(BonkrError::SlippageExceeded)
    } else if !buy_booked(ctx, sol_amount) {
        Some(BonkrError::MathOverflow)
    } else {
        None
    }
}

/// The token record after an accepted purchase.
pub open spec fn buy_token_state(ctx: Trade, sol_amount: u64) -> TokenState {
    TokenState {
        virtual_sol_reserve: (ctx.token_state.virtual_sol_reserve + buy_sol_after_fees(
            ctx,
            sol_amount,
        )) as u64,
        virtual_token_reserve: reserve_out_after(
            ctx.token_state.virtual_sol_reserve as int,
            ctx.token_state.virtual_token_reserve as int,
            buy_sol_after_fees(ctx, sol_amount),
        ) as u64,
        actual_sol_deposited: (ctx.token_state.actual_sol_deposited + buy_sol_after_fees(
            ctx,
            sol_amount,
        )) as u64,
        circulating_supply: (ctx.token_state.circulating_supply + buy_tokens_to_user(
            ctx,
            sol_amount,
        )) as u64,
        burned_amount: (ctx.token_state.burned_amount + buy_burn_amount(ctx, sol_amount)) as u64,
        creator_unclaimed_fees: (ctx.token_state.creator_unclaimed_fees + buy_creator_fee(
            ctx,
            sol_amount,
        )) as u64,
        ..ctx.token_state
    }
}

/// The readiness signal of an accepted purchase: given whenever the deposits
/// after it are at or above the graduation threshold.
pub open spec fn buy_ready_signal(ctx: Trade, sol_amount: u64, now: i64) -> Option<
    ReadyToGraduate,
> {
    let raised = buy_token_state(ctx, sol_amount).actual_sol_deposited;
    if raised >= ctx.factory_config.graduation_threshold_sol {
        Some(ReadyToGraduate { mint: ctx.token_state.mint, sol_raised: raised, timestamp: now })
    } else {
        None
    }
}

/// The receipt of an accepted purchase.
pub open spec fn buy_receipt(ctx: Trade, sol_amount: u64, now: i64) -> BuyReceipt {
    BuyReceipt {
        platform_fee: buy_platform_fee(ctx, sol_amount) as u64,
        creator_fee: buy_creator_fee(ctx, sol_amount) as u64,
        sol_after_fees: buy_sol_after_fees(ctx, sol_amount) as u64,
        escrow_deposit: buy_escrow_deposit(ctx, sol_amount) as u64,
        tokens_out: buy_tokens_out(ctx, sol_amount) as u64,
        burn_amount: buy_burn_amount(ctx, sol_amount) as u64,
        tokens_to_user: buy_tokens_to_user(ctx, sol_amount) as u64,
        ready_to_graduate: buy_ready_signal(ctx, sol_amount, now),
    }
}

/// Buys tokens from the curve for `sol_amount`, accepting no fewer than
/// `min_tokens_out`.
///
/// On success the token record is moved along the curve and its counters are
/// raised; the receipt tells the ledger what to transfer and mint. A refused
/// purchase leaves everything as it was.
pub fn buy(ctx: &mut Trade, sol_amount: u64, min_tokens_out: u64, now: i64) -> (result: Result<
    BuyReceipt,
    BonkrError,
>)
    ensures
        match result {
            Ok(receipt) => {
                &&& buy_rejection(*old(ctx), sol_amount, min_tokens_out) is None
                &&& receipt == buy_receipt(*old(ctx), sol_amount, now)
                &&& final(ctx).factory_config == old(ctx).factory_config
                &&& final(ctx).token_state == buy_token_state(*old(ctx), sol_amount)
                &&& final(ctx).token_state.curve_product() <= old(ctx).token_state.curve_product()
            },
            Err(e) => {
                &&& buy_rejection(*old(ctx), sol_amount, min_tokens_out) == Some(e)
                &&& *final(ctx) == *old(ctx)
            },
        },
{
    check_trading_gate(ctx)?;
    if sol_amount == 0 {
        return Err(BonkrError::InvalidAmount);
    }
    let value = split_value(
        sol_amount,
        ctx.factory_config.platform_fee_bps,
        ctx.factory_config.creator_fee_bps,
    )?;
    let priced = swap(
        ctx.token_state.virtual_sol_reserve,
        ctx.token_state.virtual_token_reserve,
        value.net,
    )?;
    let tokens = split_tokens(priced.amount_out, ctx.factory_config.burn_fee_bps)?;
    if tokens.net < min_tokens_out {
        return Err(BonkrError::SlippageExceeded);
    }
    let unclaimed = match ctx.token_state.creator_unclaimed_fees.checked_add(value.creator_fee) {
        Some(sum) => sum,
        None => { return Err(BonkrError::MathOverflow); },
    };
    let deposited = match ctx.token_state.actual_sol_deposited.checked_add(value.net) {
        Some(sum) => sum,
        None => { return Err(BonkrError::MathOverflow); },
    };
    let circulating = match ctx.token_state.circulating_supply.checked_add(tokens.net) {
        Some(sum) => sum,
        None => { return Err(BonkrError::MathOverflow); },
    };
    let burned = match ctx.token_state.burned_amount.checked_add(tokens.burn_amount) {
        Some(sum) => sum,
        None => { return Err(BonkrError::MathOverflow); },
    };
    proof {
        lemma_product_never_grows(
            ctx.token_state.virtual_sol_reserve as int,
            ctx.token_state.virtual_token_reserve as int,
            value.net as int,
        );
    }
    ctx.token_state.creator_unclaimed_fees = unclaimed;
    ctx.token_state.virtual_sol_reserve = priced.reserve_in;
    ctx.token_state.virtual_token_reserve = priced.reserve_out;
    ctx.token_state.actual_sol_deposited = deposited;
    ctx.token_state.circulating_supply = circulating;
    ctx.token_state.burned_amount = burned;
    let ready_to_graduate = if deposited >= ctx.factory_config.graduation_threshold_sol {
        Some(ReadyToGraduate { mint: ctx.token_state.mint, sol_raised: deposited, timestamp: now })
    } else {
        None
    };
    Ok(
        BuyReceipt {
            platform_fee: value.platform_fee,
            creator_fee: value.creator_fee,
            sol_after_fees: value.net,
            escrow_deposit: value.net + value.creator_fee,
            tokens_out: priced.amount_out,
            burn_amount: tokens.burn_amount,
            tokens_to_user: tokens.net,
            ready_to_graduate,
        },
    )
}

/// What the ledger has to do for an accepted sale, and how the value that
/// came out of the curve was split.
#[derive(Clone, Copy, Debug, PartialEq, Eq, Structural)]
pub struct SellReceipt {
    /// To destroy out of the seller's holding: the whole amount handed in.
    pub tokens_destroyed: u64,
    /// The burn taken from the amount handed in.
    pub burn_amount: u64,
    /// The tokens that went back into the curve.
    pub tokens_after_burn: u64,
    /// The value that left the curve.
    pub sol_out_before_fees: u64,
    /// To pay from the escrow to the platform's fee recipient.
    pub platform_fee: u64,
    /// Accrued for the creator; it stays in the escrow.
    pub creator_fee: u64,
    /// To pay from the escrow to the seller.
    pub sol_to_user: u64,
}

/// The burn taken from the tokens handed in for sale.
pub open spec fn sell_burn_amount(ctx: Trade, token_amount: u64) -> int {
    fee_share(token_amount as int, ctx.factory_config.burn_fee_bps as int)
}

/// The tokens of a sale that go back into the curve.
pub open spec fn sell_tokens_after_burn(ctx: Trade, token_amount: u64) -> int {
    after_fee(token_amount as int, ctx.factory_config.burn_fee_bps as int)
}

/// The value that leaves the curve on a sale.
pub open spec fn sell_sol_out_before_fees(ctx: Trade, token_amount: u64) -> int {
    swap_output(
        ctx.token_state.virtual_token_reserve as int,
        ctx.token_state.virtual_sol_reserve as int,
        sell_tokens_after_burn(ctx, token_amount),
    )
}

/// The platform's fee on a sale.
pub open spec fn sell_platform_fee(ctx: Trade, token_amount: u64) -> int {
    fee_share(
        sell_sol_out_before_fees(ctx, token_amount),
        ctx.factory_config.platform_fee_bps as int,
    )
}

/// The creator's fee on a sale.
pub open spec fn sell_creator_fee(ctx: Trade, token_amount: u64) -> int {
    fee_share(
        sell_sol_out_before_fees(ctx, token_amount),
        ctx.factory_config.creator_fee_bps as int,
    )
}

/// The value a sale pays to the seller.
pub open spec fn sell_sol_to_user(ctx: Trade, token_amount: u64) -> int {
    value_after_fees(
        sell_sol_out_before_fees(ctx, token_amount),
        ctx.factory_config.platform_fee_bps as int,
        ctx.factory_config.creator_fee_bps as int,
    )
}

/// Whether a sale can be priced in 64-bit arithmetic: the burn can be taken,
/// the curve can be moved, and the fees can be taken.
pub open spec fn sell_priced(ctx: Trade, token_amount: u64) -> bool {
    &&& token_split_fits(token_amount as int, ctx.factory_config.burn_fee_bps as int)
    &&& swap_fits(
        ctx.token_state.virtual_token_reserve as int,
        ctx.token_state.virtual_sol_reserve as int,
        sell_tokens_after_burn(ctx, token_amount),
    )
    &&& value_split_fits(
        sell_sol_out_before_fees(ctx, token_amount),
        ctx.factory_config.platform_fee_bps as int,
        ctx.factory_config.creator_fee_bps as int,
    )
}

/// Whether the counters of the record can take what a sale books: the
/// accrued fees have room, the circulating supply covers the tokens that go
/// back, and the burn counter has room.
pub open spec fn sell_booked(ctx: Trade, token_amount: u64) -> bool {
    &&& ctx.token_state.creator_unclaimed_fees + sell_creator_fee(ctx, token_amount) <= u64::MAX
    &&& sell_tokens_after_burn(ctx, token_amount) <= ctx.token_state.circulating_supply
    &&& ctx.token_state.burned_amount + sell_burn_amount(ctx, token_amount) <= u64::MAX
}

/// Why a sale is refused, if it is. The first reason that applies is given.
pub open spec fn sell_rejection(ctx: Trade, token_amount: u64, min_sol_out: u64) -> Option<
    BonkrError,
> {
    if trading_gate(ctx) is Some {
        trading_gate(ctx)
    } else if token_amount == 0 {
        Some(BonkrError::InvalidAmount)
    } else if !sell_priced(ctx, token_amount) {
        Some(BonkrError::MathOverflow)
    } else if sell_sol_to_user(ctx, token_amount) < min_sol_out {
        Some(BonkrError::SlippageExceeded)
    } else if sell_sol_out_before_fees(ctx, token_amount) > ctx.token_state.actual_sol_deposited {
        Some(BonkrError::InsufficientLiquidity)
    } else if !sell_booked(ctx, token_amount) {
        Some(BonkrError::MathOverflow)
    } else {
        None
    }
}

/// The token record after an accepted sale.
pub open spec fn sell_token_state(ctx: Trade, token_amount: u64) -> TokenState {
    TokenState {
        virtual_sol_reserve: reserve_out_after(
            ctx.token_state.virtual_token_reserve as int,
            ctx.token_state.virtual_sol_reserve as int,
            sell_tokens_after_burn(ctx, token_amount),
        ) as u64,
        virtual_token_reserve: (ctx.token_state.virtual_token_reserve + sell_tokens_after_burn(
            ctx,
            token_amount,
        )) as u64,
        actual_sol_deposited: (ctx.token_state.actual_sol_deposited - sell_sol_out_before_fees(
            ctx,
            token_amount,
        )) as u64,
        circulating_supply: (ctx.token_state.circulating_supply - sell_tokens_after_burn(
            ctx,
            token_amount,
        )) as u64,
        burned_amount: (ctx.token_state.burned_amount + sell_burn_amount(ctx, token_amount)) as u64,
        creator_unclaimed_fees: (ctx.token_state.creator_unclaimed_fees + sell_creator_fee(
            ctx,
            token_amount,
        )) as u64,
        ..ctx.token_state
    }
}

/// The receipt of an accepted sale.
pub open spec fn sell_receipt(ctx: Trade, token_amount: u64) -> SellReceipt {
    SellReceipt {
        tokens_destroyed: token_amount,
        burn_amount: sell_burn_amount(ctx, token_amount) as u64,
        tokens_after_burn: sell_tokens_after_burn(ctx, token_amount) as u64,
        sol_out_before_fees: sell_sol_out_before_fees(ctx, token_amount) as u64,
        platform_fee: sell_platform_fee(ctx, token_amount) as u64,
        creator_fee: sell_creator_fee(ctx, token_amount) as u64,
        sol_to_user: sell_sol_to_user(ctx, token_amount) as u64,
    }
}

/// Sells `token_amount` tokens to the curve, accepting no less than
/// `min_sol_out`.
///
/// On success the token record is moved back along the curve; the receipt
/// tells the ledger what to destroy and what to pay out of the escrow. The
/// whole amount handed in is destroyed, while the circulating supply falls by
/// the amount less the burn. A refused sale leaves everything as it was.
pub fn sell(ctx: &mut Trade, token_amount: u64, min_sol_out: u64) -> (result: Result<
    SellReceipt,
    BonkrError,
>)
    ensures
        match result {
            Ok(receipt) => {
                &&& sell_rejection(*old(ctx), token_amount, min_sol_out) is None
                &&& receipt == sell_receipt(*old(ctx), token_amount)
                &&& final(ctx).factory_config == old(ctx).factory_config
                &&& final(ctx).token_state == sell_token_state(*old(ctx), token_amount)
                &&& final(ctx).token_state.curve_product() <= old(ctx).token_state.curve_product()
            },
            Err(e) => {
                &&& sell_rejection(*old(ctx), token_amount, min_sol_out) == Some(e)
                &&& *final(ctx) == *old(ctx)
            },
        },
{
    check_trading_gate(ctx)?;
    if token_amount == 0 {
        return Err(BonkrError::InvalidAmount);
    }
    let tokens = split_tokens(token_amount, ctx.factory_config.burn_fee_bps)?;
    let priced = swap(
        ctx.token_state.virtual_token_reserve,
        ctx.token_state.virtual_sol_reserve,
        tokens.net,
    )?;
    let value = split_value(
        priced.amount_out,
        ctx.factory_config.platform_fee_bps,
        ctx.factory_config.creator_fee_bps,
    )?;
    if value.net < min_sol_out {
        return Err(BonkrError::SlippageExceeded);
    }
    if priced.amount_out > ctx.token_state.actual_sol_deposited {
        return Err(BonkrError::InsufficientLiquidity);
    }
    let unclaimed = match ctx.token_state.creator_unclaimed_fees.checked_add(value.creator_fee) {
        Some(sum) => sum,
        None => { return Err(BonkrError::MathOverflow); },
    };
    let circulating = match ctx.token_state.circulating_supply.checked_sub(tokens.net) {
        Some(rest) => rest,
        None => { return Err(BonkrError::MathOverflow); },
    };
    let burned = match ctx.token_state.burned_amount.checked_add(tokens.burn_amount) {
        Some(sum) => sum,
        None => { return Err(BonkrError::MathOverflow); },
    };
    proof {
        lemma_product_never_grows(
            ctx.token_state.virtual_token_reserve as int,
            ctx.token_state.virtual_sol_reserve as int,
            tokens.net as int,
        );
        assert(priced.reserve_out * priced.reserve_in == priced.reserve_in * priced.reserve_out)
            by (nonlinear_arith);
        assert(ctx.token_state.virtual_sol_reserve * ctx.token_state.virtual_token_reserve
            == ctx.token_state.virtual_token_reserve * ctx.token_state.virtual_sol_reserve)
            by (nonlinear_arith);
    }
    ctx.token_state.creator_unclaimed_fees = unclaimed;
    ctx.token_state.virtual_sol_reserve = priced.reserve_out;
    ctx.token_state.virtual_token_reserve = priced.reserve_in;
    ctx.token_state.actual_sol_deposited = ctx.token_state.actual_sol_deposited
        - priced.amount_out;
    ctx.token_state.circulating_supply = circulating;
    ctx.token_state.burned_amount = burned;
    Ok(
        SellReceipt {
            tokens_destroyed: token_amount,
            burn_amount: tokens.burn_amount,
            tokens_after_burn: tokens.net,
            sol_out_before_fees: priced.amount_out,
            platform_fee: value.platform_fee,
            creator_fee: value.creator_fee,
            sol_to_user: value.net,
        },
    )
}

} // verus!
