//! The life of one token's record as a sequence of calls, and what holds of
//! every such sequence.
//!
//! Between two calls on a token the factory may be paused, unpaused or handed
//! over, so each call comes with the factory configuration it meets. A call
//! that is refused leaves the record as it was.

use crate::admin::{admin_recovery_rejection, recovered_token_state, AdminRecovery};
use crate::curve::lemma_reserve_out_bounds;
use crate::fees::{claim_rejection, lemma_fee_share_bounds, ClaimCreatorFees};
use crate::graduation::{graduate_outcome, Graduate};
use crate::identity::Identity;
use crate::laws::{lemma_buy_product_never_grows, lemma_sell_product_never_grows};
use crate::state::{FactoryConfig, TokenState};
use crate::trading::{
    buy_creator_fee,
    buy_rejection,
    buy_token_state,
    buy_tokens_to_user,
    sell_creator_fee,
    sell_priced,
    sell_rejection,
    sell_sol_out_before_fees,
    sell_token_state,
    sell_tokens_after_burn,
    Trade,
};
use vstd::prelude::*;

verus! {

/// One operation on a token's record, with what the caller supplies.
pub enum Operation {
    Buy { sol_amount: u64, min_tokens_out: u64 },
    Sell { token_amount: u64, min_sol_out: u64 },
    ClaimCreatorFees { creator: Identity },
    Graduate,
    AdminRecovery { authority: Identity, sol_vault: u64, minimum_retained: u64 },
}

/// One call on a token's record: the operation, and the factory
/// configuration at the time of the call.
pub struct Call {
    pub factory_config: FactoryConfig,
    pub operation: Operation,
}

/// The record after one call: what the operation's contract says it leaves
/// behind, and the record itself where the call is refused.
pub open spec fn after_call(token: TokenState, call: Call) -> TokenState {
    match call.operation {
        Operation::Buy { sol_amount, min_tokens_out } => {
            let ctx = Trade { factory_config: call.factory_config, token_state: token };
            if buy_rejection(ctx, sol_amount, min_tokens_out) is None {
                buy_token_state(ctx, sol_amount)
            } else {
                token
            }
        },
        Operation::Sell { token_amount, min_sol_out } => {
            let ctx = Trade { factory_config: call.factory_config, token_state: token };
            if sell_rejection(ctx, token_amount, min_sol_out) is None {
                sell_token_state(ctx, token_amount)
            } else {
                token
            }
        },
        Operation::ClaimCreatorFees { creator } => {
            if claim_rejection(ClaimCreatorFees { token_state: token, creator }) is None {
                TokenState { creator_unclaimed_fees: 0, ..token }
            } else {
                token
            }
        },
        Operation::Graduate => graduate_outcome(
            Graduate { factory_config: call.factory_config, token_state: token },
        ).token_state,
        Operation::AdminRecovery { authority, sol_vault, minimum_retained } => {
            let ctx = AdminRecovery {
                factory_config: call.factory_config,
                token_state: token,
                sol_vault,
                authority,
            };
            if admin_recovery_rejection(ctx, minimum_retained) is None {
                recovered_token_state(token)
            } else {
                token
            }
        },
    }
}

/// The tokens that a call credits to a buyer: those of an accepted purchase.
pub open spec fn tokens_credited(token: TokenState, call: Call) -> int {
    match call.operation {
        Operation::Buy { sol_amount, min_tokens_out } => {
            let ctx = Trade { factory_config: call.factory_config, token_state: token };
            if buy_rejection(ctx, sol_amount, min_tokens_out) is None {
                buy_tokens_to_user(ctx, sol_amount)
            } else {
                0
            }
        },
        _ => 0,
    }
}

/// The tokens that a call returns to the curve: those of an accepted sale,
/// less the burn.
pub open spec fn tokens_debited(token: TokenState, call: Call) -> int {
    match call.operation {
        Operation::Sell { token_amount, min_sol_out } => {
            let ctx = Trade { factory_config: call.factory_config, token_state: token };
            if sell_rejection(ctx, token_amount, min_sol_out) is None {
                sell_tokens_after_burn(ctx, token_amount)
            } else {
                0
            }
        },
        _ => 0,
    }
}

/// The fee that a call accrues for the creator: that of an accepted trade.
pub open spec fn fees_accrued(token: TokenState, call: Call) -> int {
    match call.operation {
        Operation::Buy { sol_amount, min_tokens_out } => {
            let ctx = Trade { factory_config: call.factory_config, token_state: token };
            if buy_rejection(ctx, sol_amount, min_tokens_out) is None {
                buy_creator_fee(ctx, sol_amount)
            } else {
                0
            }
        },
        Operation::Sell { token_amount, min_sol_out } => {
            let ctx = Trade { factory_config: call.factory_config, token_state: token };
            if sell_rejection(ctx, token_amount, min_sol_out) is None {
                sell_creator_fee(ctx, token_amount)
            } else {
                0
            }
        },
        _ => 0,
    }
}

/// The fees that a call pays out to the creator: all that had accrued, on an
/// accepted claim.
pub open spec fn fees_claimed(token: TokenState, call: Call) -> int {
    match call.operation {
        Operation::ClaimCreatorFees { creator } => {
            if claim_rejection(ClaimCreatorFees { token_state: token, creator }) is None {
                token.creator_unclaimed_fees as int
            } else {
                0
            }
        },
        _ => 0,
    }
}

/// The fees that the creator loses by a call: all that had accrued, on an
/// accepted recovery.
pub open spec fn fees_forfeited(token: TokenState, call: Call) -> int {
    match call.operation {
        Operation::AdminRecovery { authority, sol_vault, minimum_retained } => {
            let ctx = AdminRecovery {
                factory_config: call.factory_config,
                token_state: token,
                sol_vault,
                authority,
            };
            if admin_recovery_rejection(ctx, minimum_retained) is None {
                token.creator_unclaimed_fees as int
            } else {
                0
            }
        },
        _ => 0,
    }
}

/// The quantities that are summed over a sequence of calls.
pub enum Tally {
    TokensCredited,
    TokensDebited,
    FeesAccrued,
    FeesClaimed,
    FeesForfeited,
}

/// What one call adds to a tally, made on the record as it stands.
pub open spec fn tallied(tally: Tally, token: TokenState, call: Call) -> int {
    match tally {
        Tally::TokensCredited => tokens_credited(token, call),
        Tally::TokensDebited => tokens_debited(token, call),
        Tally::FeesAccrued => fees_accrued(token, call),
        Tally::FeesClaimed => fees_claimed(token, call),
        Tally::FeesForfeited => fees_forfeited(token, call),
    }
}

/// The record after a sequence of calls, made one after the other.
pub open spec fn after_calls(token: TokenState, calls: Seq<Call>) -> TokenState
    decreases calls.len(),
{
    if calls.len() == 0 {
        token
    } else {
        after_call(after_calls(token, calls.drop_last()), calls.last())
    }
}

/// A tally over a sequence of calls: the sum of what each call adds, made on
/// the record that the calls before it left.
pub open spec fn total(tally: Tally, token: TokenState, calls: Seq<Call>) -> int
    decreases calls.len(),
{
    if calls.len() == 0 {
        0
    } else {
        total(tally, token, calls.drop_last()) + tallied(
            tally,
            after_calls(token, calls.drop_last()),
            calls.last(),
        )
    }
}

/// One call changes the circulating supply by what it credits less what it
/// debits, and the creator's accrued fees by what it accrues less what it
/// pays out or forfeits.
pub proof fn lemma_call_is_tallied(token: TokenState, call: Call)
    ensures
        after_call(token, call).circulating_supply == token.circulating_supply + tokens_credited(
            token,
            call,
        ) - tokens_debited(token, call),
        after_call(token, call).creator_unclaimed_fees == token.creator_unclaimed_fees
            + fees_accrued(token, call) - fees_claimed(token, call) - fees_forfeited(token, call),
        fees_forfeited(token, call) >= 0,
{
    let ctx = Trade { factory_config: call.factory_config, token_state: token };
    match call.operation {
        Operation::Buy { sol_amount, .. } => {
            lemma_fee_share_bounds(sol_amount as int, ctx.factory_config.creator_fee_bps as int);
        },
        Operation::Sell { token_amount, .. } => {
            if sell_priced(ctx, token_amount) {
                lemma_reserve_out_bounds(
                    token.virtual_token_reserve as int,
                    token.virtual_sol_reserve as int,
                    sell_tokens_after_burn(ctx, token_amount),
                );
                lemma_fee_share_bounds(
                    sell_sol_out_before_fees(ctx, token_amount),
                    ctx.factory_config.creator_fee_bps as int,
                );
            }
        },
        _ => {},
    }
}

/// After any sequence of calls the circulating supply is what it was at the
/// start, plus all the tokens credited to buyers, less all the tokens that
/// sellers returned to the curve. A token starts with none circulating, so
/// its circulating supply is the credits less the debits.
pub proof fn lemma_supply_is_credits_less_debits(token: TokenState, calls: Seq<Call>)
    ensures
        after_calls(token, calls).circulating_supply == token.circulating_supply + total(
            Tally::TokensCredited,
            token,
            calls,
        ) - total(Tally::TokensDebited, token, calls),
    decreases calls.len(),
{
    if calls.len() > 0 {
        lemma_supply_is_credits_less_debits(token, calls.drop_last());
        lemma_call_is_tallied(after_calls(token, calls.drop_last()), calls.last());
    }
}

/// After any sequence of calls the creator's accrued fees are what they were
/// at the start, plus all that trades accrued, less all that was claimed and
/// all that recoveries forfeited. So they never exceed what accrued and was
/// not claimed.
pub proof fn lemma_accrued_fees_are_accounted(token: TokenState, calls: Seq<Call>)
    ensures
        after_calls(token, calls).creator_unclaimed_fees == token.creator_unclaimed_fees + total(
            Tally::FeesAccrued,
            token,
            calls,
        ) - total(Tally::FeesClaimed, token, calls) - total(Tally::FeesForfeited, token, calls),
        total(Tally::FeesForfeited, token, calls) >= 0,
        after_calls(token, calls).creator_unclaimed_fees <= token.creator_unclaimed_fees + total(
            Tally::FeesAccrued,
            token,
            calls,
        ) - total(Tally::FeesClaimed, token, calls),
    decreases calls.len(),
{
    if calls.len() > 0 {
        lemma_accrued_fees_are_accounted(token, calls.drop_last());
        lemma_call_is_tallied(after_calls(token, calls.drop_last()), calls.last());
    }
}

/// Whether two records are of the same token: what is fixed at creation
/// agrees.
pub open spec fn same_token(a: TokenState, b: TokenState) -> bool {
    &&& a.mint == b.mint
    &&& a.creator == b.creator
    &&& a.name == b.name
    &&& a.symbol == b.symbol
    &&& a.description == b.description
    &&& a.total_supply == b.total_supply
    &&& a.created_at == b.created_at
    &&& a.bump == b.bump
    &&& a.vault_bump == b.vault_bump
}

/// No call undoes graduation, none switches trading back on, and none
/// touches what was fixed at creation.
pub proof fn lemma_call_is_one_way(token: TokenState, call: Call)
    ensures
        token.is_graduated ==> after_call(token, call).is_graduated,
        !token.trading_enabled ==> !after_call(token, call).trading_enabled,
        token.lifecycle_ok() ==> after_call(token, call).lifecycle_ok(),
        same_token(token, after_call(token, call)),
{
}

/// Graduation is for good: whatever is called on a graduated token, it stays
/// graduated. Trading that is off stays off. A record on which a graduated
/// token does not trade stays such a record, so a token that graduated never
/// trades again. And what was fixed at creation, the total supply among it,
/// stays as it was.
pub proof fn lemma_calls_are_one_way(token: TokenState, calls: Seq<Call>)
    ensures
        token.is_graduated ==> after_calls(token, calls).is_graduated,
        !token.trading_enabled ==> !after_calls(token, calls).trading_enabled,
        token.lifecycle_ok() ==> after_calls(token, calls).lifecycle_ok(),
        same_token(token, after_calls(token, calls)),
        token.wf() ==> after_calls(token, calls).wf(),
    decreases calls.len(),
{
    if calls.len() > 0 {
        lemma_calls_are_one_way(token, calls.drop_last());
        lemma_call_is_one_way(after_calls(token, calls.drop_last()), calls.last());
    }
}

/// No call raises the product of the reserves: a trade rounds it down, a
/// recovery empties the paying reserve, and nothing else touches the curve.
pub proof fn lemma_call_never_raises_product(token: TokenState, call: Call)
    ensures
        after_call(token, call).curve_product() <= token.curve_product(),
{
    let ctx = Trade { factory_config: call.factory_config, token_state: token };
    match call.operation {
        Operation::Buy { sol_amount, min_tokens_out } => {
            if buy_rejection(ctx, sol_amount, min_tokens_out) is None {
                lemma_buy_product_never_grows(ctx, sol_amount);
            }
        },
        Operation::Sell { token_amount, min_sol_out } => {
            if sell_rejection(ctx, token_amount, min_sol_out) is None {
                lemma_sell_product_never_grows(ctx, token_amount);
            }
        },
        Operation::AdminRecovery { .. } => {
            let emptied = recovered_token_state(token);
            assert(emptied.virtual_sol_reserve * emptied.virtual_token_reserve == 0)
                by (nonlinear_arith)
                requires
                    emptied.virtual_sol_reserve == 0,
            ;
            assert(0 <= token.virtual_sol_reserve * token.virtual_token_reserve)
                by (nonlinear_arith);
        },
        _ => {},
    }
}

/// Over the whole life of a token the product of its reserves never rises
/// above what it was at the start.
pub proof fn lemma_calls_never_raise_product(token: TokenState, calls: Seq<Call>)
    ensures
        after_calls(token, calls).curve_product() <= token.curve_product(),
    decreases calls.len(),
{
    if calls.len() > 0 {
        lemma_calls_never_raise_product(token, calls.drop_last());
        lemma_call_never_raises_product(after_calls(token, calls.drop_last()), calls.last());
    }
}

/// Whether two records differ in nothing but the creator's accrued fees.
pub open spec fn same_but_accrued_fees(a: TokenState, b: TokenState) -> bool {
    b == (TokenState { creator_unclaimed_fees: b.creator_unclaimed_fees, ..a })
}

/// A graduated token has left the curve: no call moves its reserves, its
/// deposits or its supply any more. All that can still happen is that the
/// creator claims the fees that had accrued.
pub proof fn lemma_graduated_is_frozen(token: TokenState, calls: Seq<Call>)
    requires
        token.is_graduated,
        token.lifecycle_ok(),
    ensures
        same_but_accrued_fees(token, after_calls(token, calls)),
        after_calls(token, calls).creator_unclaimed_fees <= token.creator_unclaimed_fees,
    decreases calls.len(),
{
    if calls.len() > 0 {
        lemma_graduated_is_frozen(token, calls.drop_last());
        lemma_calls_are_one_way(token, calls.drop_last());
    }
}

} // verus!
