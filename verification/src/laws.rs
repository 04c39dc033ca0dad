//! What holds of every trade and of graduation, proved from the definitions
//! that the operations' contracts are stated in.

use crate::curve::{
    lemma_product_never_grows,
    lemma_reserve_out_bounds,
    lemma_swap_output_monotonic,
    reserve_out_after,
};
use crate::errors::BonkrError;
use crate::fees::{
    after_fee,
    claim_rejection,
    lemma_after_fee_monotonic,
    lemma_fee_share_bounds,
    lemma_fee_share_monotonic,
    ClaimCreatorFees,
};
use crate::graduation::{graduate_outcome, graduate_rejection, Graduate};
use crate::state::{FactoryConfig, TokenState};
use crate::trading::{
    buy_escrow_deposit,
    buy_platform_fee,
    buy_priced,
    buy_rejection,
    buy_sol_after_fees,
    buy_token_state,
    buy_tokens_out,
    buy_tokens_to_user,
    sell_platform_fee,
    sell_priced,
    sell_rejection,
    sell_sol_out_before_fees,
    sell_sol_to_user,
    sell_token_state,
    sell_tokens_after_burn,
    Trade,
};
use vstd::prelude::*;

verus! {

/// Whether `high` is `low` with fees that are each at least as high, and all
/// else the same.
pub open spec fn same_but_higher_fees(low: Trade, high: Trade) -> bool {
    &&& low.factory_config.platform_fee_bps <= high.factory_config.platform_fee_bps
    &&& low.factory_config.creator_fee_bps <= high.factory_config.creator_fee_bps
    &&& low.factory_config.burn_fee_bps <= high.factory_config.burn_fee_bps
    &&& high == (Trade {
        factory_config: FactoryConfig {
            platform_fee_bps: high.factory_config.platform_fee_bps,
            creator_fee_bps: high.factory_config.creator_fee_bps,
            burn_fee_bps: high.factory_config.burn_fee_bps,
            ..low.factory_config
        },
        ..low
    })
}

/// Raising the platform fee, the creator fee or the burn never gives the
/// buyer more tokens: of two purchases of the same amount on the same curve
/// that can both be priced, the one under the higher fees credits no more
/// than the other. Every accepted purchase can be priced.
pub proof fn lemma_buy_output_falls_as_fees_rise(low: Trade, high: Trade, sol_amount: u64)
    requires
        same_but_higher_fees(low, high),
        buy_priced(low, sol_amount),
        buy_priced(high, sol_amount),
    ensures
        buy_tokens_to_user(high, sol_amount) <= buy_tokens_to_user(low, sol_amount),
{
    let amount = sol_amount as int;
    let vs = low.token_state.virtual_sol_reserve as int;
    let vt = low.token_state.virtual_token_reserve as int;
    let burn_low = low.factory_config.burn_fee_bps as int;
    let burn_high = high.factory_config.burn_fee_bps as int;
    // Higher fees leave less to price.
    lemma_fee_share_monotonic(
        amount,
        low.factory_config.platform_fee_bps as int,
        amount,
        high.factory_config.platform_fee_bps as int,
    );
    lemma_fee_share_monotonic(
        amount,
        low.factory_config.creator_fee_bps as int,
        amount,
        high.factory_config.creator_fee_bps as int,
    );
    let priced_low = buy_sol_after_fees(low, sol_amount);
    let priced_high = buy_sol_after_fees(high, sol_amount);
    assert(0 <= priced_high <= priced_low);
    // Less to price takes fewer tokens out of the curve.
    lemma_swap_output_monotonic(vs, vt, priced_high, priced_low);
    lemma_reserve_out_bounds(vs, vt, priced_high);
    let out_low = buy_tokens_out(low, sol_amount);
    let out_high = buy_tokens_out(high, sol_amount);
    assert(0 <= out_high <= out_low);
    // A higher burn leaves less of the same tokens.
    lemma_fee_share_monotonic(out_high, burn_low, out_high, burn_high);
    assert(after_fee(out_high, burn_high) <= after_fee(out_high, burn_low));
    // At the same burn, fewer tokens leave no more.
    if burn_low <= 10000 {
        lemma_after_fee_monotonic(out_high, out_low, burn_low);
    } else {
        lemma_fee_share_bounds(out_high, burn_low);
        assert(after_fee(out_high, burn_low) <= 0);
        assert(after_fee(out_low, burn_low) >= 0);
    }
}

/// A purchase never raises the product of the reserves: rounding down can
/// only lower it.
pub proof fn lemma_buy_product_never_grows(ctx: Trade, sol_amount: u64)
    requires
        buy_priced(ctx, sol_amount),
    ensures
        buy_token_state(ctx, sol_amount).curve_product() <= ctx.token_state.curve_product(),
{
    let vs = ctx.token_state.virtual_sol_reserve as int;
    let vt = ctx.token_state.virtual_token_reserve as int;
    let paid = buy_sol_after_fees(ctx, sol_amount);
    lemma_reserve_out_bounds(vs, vt, paid);
    lemma_product_never_grows(vs, vt, paid);
}

/// A sale never raises the product of the reserves either.
pub proof fn lemma_sell_product_never_grows(ctx: Trade, token_amount: u64)
    requires
        sell_priced(ctx, token_amount),
    ensures
        sell_token_state(ctx, token_amount).curve_product() <= ctx.token_state.curve_product(),
{
    let vs = ctx.token_state.virtual_sol_reserve as int;
    let vt = ctx.token_state.virtual_token_reserve as int;
    let paid = sell_tokens_after_burn(ctx, token_amount);
    lemma_reserve_out_bounds(vt, vs, paid);
    lemma_product_never_grows(vt, vs, paid);
    let after = sell_token_state(ctx, token_amount);
    assert(after.virtual_sol_reserve * after.virtual_token_reserve == after.virtual_token_reserve
        * after.virtual_sol_reserve) by (nonlinear_arith);
    assert(vs * vt == vt * vs) by (nonlinear_arith);
}

/// After a purchase the product of the reserves is still positive, provided
/// the product before it was at least the reserve that the purchase grows to.
pub proof fn lemma_buy_product_stays_positive(ctx: Trade, sol_amount: u64)
    requires
        buy_priced(ctx, sol_amount),
        ctx.token_state.curve_product() >= ctx.token_state.virtual_sol_reserve
            + buy_sol_after_fees(ctx, sol_amount),
    ensures
        buy_token_state(ctx, sol_amount).curve_product() > 0,
{
    let vs = ctx.token_state.virtual_sol_reserve as int;
    let vt = ctx.token_state.virtual_token_reserve as int;
    let paid = buy_sol_after_fees(ctx, sol_amount);
    lemma_reserve_out_bounds(vs, vt, paid);
    lemma_product_never_grows(vs, vt, paid);
}

/// Where the product before a purchase is less than the reserve that the
/// purchase grows to, the token reserve is emptied and the product after it
/// is zero.
pub proof fn lemma_buy_product_vanishes(ctx: Trade, sol_amount: u64)
    requires
        buy_priced(ctx, sol_amount),
        ctx.token_state.curve_product() < ctx.token_state.virtual_sol_reserve
            + buy_sol_after_fees(ctx, sol_amount),
    ensures
        buy_token_state(ctx, sol_amount).curve_product() == 0,
{
    let vs = ctx.token_state.virtual_sol_reserve as int;
    let vt = ctx.token_state.virtual_token_reserve as int;
    let paid = buy_sol_after_fees(ctx, sol_amount);
    lemma_reserve_out_bounds(vs, vt, paid);
    lemma_product_never_grows(vs, vt, paid);
    let shrunk = reserve_out_after(vs, vt, paid);
    assert(shrunk == 0) by (nonlinear_arith)
        requires
            0 <= shrunk,
            0 < vs + paid,
            (vs + paid) * shrunk <= vs * vt,
            vs * vt < vs + paid,
    ;
    assert((vs + paid) * 0 == 0) by (nonlinear_arith);
}

/// After a sale the product of the reserves is still positive, provided the
/// product before it was at least the reserve that the sale grows to.
pub proof fn lemma_sell_product_stays_positive(ctx: Trade, token_amount: u64)
    requires
        sell_priced(ctx, token_amount),
        ctx.token_state.curve_product() >= ctx.token_state.virtual_token_reserve
            + sell_tokens_after_burn(ctx, token_amount),
    ensures
        sell_token_state(ctx, token_amount).curve_product() > 0,
{
    let vs = ctx.token_state.virtual_sol_reserve as int;
    let vt = ctx.token_state.virtual_token_reserve as int;
    let paid = sell_tokens_after_burn(ctx, token_amount);
    lemma_reserve_out_bounds(vt, vs, paid);
    lemma_product_never_grows(vt, vs, paid);
    let after = sell_token_state(ctx, token_amount);
    assert(after.virtual_sol_reserve * after.virtual_token_reserve == after.virtual_token_reserve
        * after.virtual_sol_reserve) by (nonlinear_arith);
    assert(vs * vt == vt * vs) by (nonlinear_arith);
}

/// Where the product before a sale is less than the reserve that the sale
/// grows to, the paying reserve is emptied and the product after it is zero.
pub proof fn lemma_sell_product_vanishes(ctx: Trade, token_amount: u64)
    requires
        sell_priced(ctx, token_amount),
        ctx.token_state.curve_product() < ctx.token_state.virtual_token_reserve
            + sell_tokens_after_burn(ctx, token_amount),
    ensures
        sell_token_state(ctx, token_amount).curve_product() == 0,
{
    let vs = ctx.token_state.virtual_sol_reserve as int;
    let vt = ctx.token_state.virtual_token_reserve as int;
    let paid = sell_tokens_after_burn(ctx, token_amount);
    lemma_reserve_out_bounds(vt, vs, paid);
    lemma_product_never_grows(vt, vs, paid);
    let shrunk = reserve_out_after(vt, vs, paid);
    assert(vs * vt == vt * vs) by (nonlinear_arith);
    assert(shrunk == 0) by (nonlinear_arith)
        requires
            0 <= shrunk,
            0 < vt + paid,
            (vt + paid) * shrunk <= vt * vs,
            vt * vs < vt + paid,
    ;
    let after = sell_token_state(ctx, token_amount);
    assert(after.virtual_sol_reserve == 0);
    assert(0 * after.virtual_token_reserve == 0) by (nonlinear_arith);
}

/// What an accepted purchase sends into the escrow is what it adds to the
/// deposits and to the creator's accrued fees together; with the platform's
/// fee, which never enters the escrow, it is the whole payment.
pub proof fn lemma_buy_escrow_accounting(ctx: Trade, sol_amount: u64, min_tokens_out: u64)
    requires
        buy_rejection(ctx, sol_amount, min_tokens_out) is None,
    ensures
        buy_escrow_deposit(ctx, sol_amount) == (buy_token_state(
            ctx,
            sol_amount,
        ).actual_sol_deposited - ctx.token_state.actual_sol_deposited) + (buy_token_state(
            ctx,
            sol_amount,
        ).creator_unclaimed_fees - ctx.token_state.creator_unclaimed_fees),
        buy_escrow_deposit(ctx, sol_amount) + buy_platform_fee(ctx, sol_amount) == sol_amount,
{
    lemma_fee_share_bounds(sol_amount as int, ctx.factory_config.creator_fee_bps as int);
}

/// What an accepted sale pays out of the escrow, to the seller and to the
/// platform, is what it takes from the deposits less what it adds to the
/// creator's accrued fees; and it never takes more from the deposits than
/// they hold.
pub proof fn lemma_sell_escrow_accounting(ctx: Trade, token_amount: u64, min_sol_out: u64)
    requires
        sell_rejection(ctx, token_amount, min_sol_out) is None,
    ensures
        sell_sol_to_user(ctx, token_amount) + sell_platform_fee(ctx, token_amount) == (
        ctx.token_state.actual_sol_deposited - sell_token_state(
            ctx,
            token_amount,
        ).actual_sol_deposited) - (sell_token_state(ctx, token_amount).creator_unclaimed_fees
            - ctx.token_state.creator_unclaimed_fees),
        sell_sol_out_before_fees(ctx, token_amount) <= ctx.token_state.actual_sol_deposited,
{
    let vs = ctx.token_state.virtual_sol_reserve as int;
    let vt = ctx.token_state.virtual_token_reserve as int;
    let paid = sell_tokens_after_burn(ctx, token_amount);
    lemma_reserve_out_bounds(vt, vs, paid);
    lemma_fee_share_bounds(
        sell_sol_out_before_fees(ctx, token_amount),
        ctx.factory_config.creator_fee_bps as int,
    );
}

/// Graduation happens once: after it has succeeded, asking again is refused
/// because the token has graduated, and the record stays as the first call
/// left it.
pub proof fn lemma_graduate_succeeds_once(ctx: Graduate)
    requires
        graduate_rejection(ctx) is None,
    ensures
        graduate_rejection(graduate_outcome(ctx)) == Some(BonkrError::TokenGraduated),
        graduate_outcome(graduate_outcome(ctx)) == graduate_outcome(ctx),
{
}

/// Graduation is final whatever the deposits become: a record that has
/// graduated is refused again, with the same reason, and left as it is.
pub proof fn lemma_graduated_is_refused(ctx: Graduate)
    requires
        ctx.token_state.is_graduated,
    ensures
        graduate_rejection(ctx) == Some(BonkrError::TokenGraduated),
        graduate_outcome(ctx) == ctx,
{
}

/// A claim pays out once: after it has succeeded nothing is accrued, and
/// claiming again is refused.
pub proof fn lemma_claim_leaves_nothing(ctx: ClaimCreatorFees)
    requires
        claim_rejection(ctx) is None,
    ensures
        claim_rejection(
            ClaimCreatorFees {
                token_state: TokenState {
                    creator_unclaimed_fees: 0,
                    ..ctx.token_state
                },
                ..ctx
            },
        ) == Some(BonkrError::NoFeesToClaim),
{
}

} // verus!
