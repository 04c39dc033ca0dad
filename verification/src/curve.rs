//! The pricing engine: a constant-product curve over two reserves.
//!
//! A trade pays into one reserve and is paid out of the other. The product of
//! the two reserves is taken anew at the start of every trade; the reserve
//! that pays out becomes that product divided by the grown reserve, rounded
//! down, and the trade receives the difference.

use crate::errors::BonkrError;
use vstd::arithmetic::div_mod::{
    lemma_div_is_ordered,
    lemma_div_is_ordered_by_denominator,
    lemma_div_multiples_vanish,
    lemma_fundamental_div_mod,
    lemma_mod_bound,
};
use vstd::arithmetic::mul::lemma_mul_inequality;
use vstd::prelude::*;

verus! {

/// The outcome of one trade against the curve.
#[derive(Clone, Copy, Debug, PartialEq, Eq, Structural)]
pub struct Swap {
    /// The reserve that was paid into, after the trade.
    pub reserve_in: u64,
    /// The reserve that paid out, after the trade.
    pub reserve_out: u64,
    /// What the trade receives.
    pub amount_out: u64,
}

/// Whether a trade paying `amount_in` can be priced: the product and the grown
/// reserve fit in 64 bits, and the grown reserve is not zero.
pub open spec fn swap_fits(reserve_in: int, reserve_out: int, amount_in: int) -> bool {
    &&& reserve_in * reserve_out <= u64::MAX
    &&& reserve_in + amount_in <= u64::MAX
    &&& reserve_in + amount_in > 0
}

/// The paying-out reserve after a trade that pays `amount_in` into the other.
pub open spec fn reserve_out_after(reserve_in: int, reserve_out: int, amount_in: int) -> int {
    (reserve_in * reserve_out) / (reserve_in + amount_in)
}

/// What a trade paying `amount_in` receives.
pub open spec fn swap_output(reserve_in: int, reserve_out: int, amount_in: int) -> int {
    reserve_out - reserve_out_after(reserve_in, reserve_out, amount_in)
}

/// The reserve that pays out never grows and never goes below zero, so a
/// trade never receives a negative amount nor more than the reserve.
pub proof fn lemma_reserve_out_bounds(reserve_in: int, reserve_out: int, amount_in: int)
    requires
        0 <= reserve_in,
        0 <= reserve_out,
        0 <= amount_in,
        0 < reserve_in + amount_in,
    ensures
        0 <= reserve_out_after(reserve_in, reserve_out, amount_in) <= reserve_out,
        0 <= swap_output(reserve_in, reserve_out, amount_in) <= reserve_out,
{
    let grown = reserve_in + amount_in;
    assert(0 <= reserve_in * reserve_out) by (nonlinear_arith)
        requires
            0 <= reserve_in,
            0 <= reserve_out,
    ;
    lemma_mul_inequality(reserve_in, grown, reserve_out);
    lemma_div_is_ordered(0, reserve_in * reserve_out, grown);
    lemma_div_is_ordered(reserve_in * reserve_out, grown * reserve_out, grown);
    lemma_div_multiples_vanish(reserve_out, grown);
}

/// Rounding down never raises the product of the reserves: after a trade it
/// is at most what it was before, and more than the old product less the
/// grown reserve.
pub proof fn lemma_product_never_grows(reserve_in: int, reserve_out: int, amount_in: int)
    requires
        0 <= reserve_in,
        0 <= reserve_out,
        0 <= amount_in,
        0 < reserve_in + amount_in,
    ensures
        (reserve_in + amount_in) * reserve_out_after(reserve_in, reserve_out, amount_in)
            <= reserve_in * reserve_out,
        (reserve_in + amount_in) * reserve_out_after(reserve_in, reserve_out, amount_in)
            > reserve_in * reserve_out - (reserve_in + amount_in),
{
    let grown = reserve_in + amount_in;
    let k = reserve_in * reserve_out;
    lemma_fundamental_div_mod(k, grown);
    lemma_mod_bound(k, grown);
}

/// Paying more in never leaves more in the reserve that pays out, so it never
/// receives less.
pub proof fn lemma_swap_output_monotonic(
    reserve_in: int,
    reserve_out: int,
    amount_in1: int,
    amount_in2: int,
)
    requires
        0 <= reserve_in,
        0 <= reserve_out,
        0 <= amount_in1 <= amount_in2,
        0 < reserve_in + amount_in1,
    ensures
        swap_output(reserve_in, reserve_out, amount_in1) <= swap_output(
            reserve_in,
            reserve_out,
            amount_in2,
        ),
{
    assert(0 <= reserve_in * reserve_out) by (nonlinear_arith)
        requires
            0 <= reserve_in,
            0 <= reserve_out,
    ;
    lemma_div_is_ordered_by_denominator(
        reserve_in * reserve_out,
        reserve_in + amount_in1,
        reserve_in + amount_in2,
    );
}

/// Prices one trade that pays `amount_in` into `reserve_in` and is paid out of
/// `reserve_out`.
pub fn swap(reserve_in: u64, reserve_out: u64, amount_in: u64) -> (result: Result<
    Swap,
    BonkrError,
>)
    ensures
        match result {
            Ok(s) => {
                &&& swap_fits(reserve_in as int, reserve_out as int, amount_in as int)
                &&& s.reserve_in == reserve_in + amount_in
                &&& s.reserve_out == reserve_out_after(
                    reserve_in as int,
                    reserve_out as int,
                    amount_in as int,
                )
                &&& s.amount_out == swap_output(
                    reserve_in as int,
                    reserve_out as int,
                    amount_in as int,
                )
            },
            Err(e) => {
                &&& !swap_fits(reserve_in as int, reserve_out as int, amount_in as int)
                &&& e == BonkrError::MathOverflow
            },
        },
{
    let k = match reserve_in.checked_mul(reserve_out) {
        Some(k) => k,
        None => { return Err(BonkrError::MathOverflow); },
    };
    let grown = match reserve_in.checked_add(amount_in) {
        Some(grown) => grown,
        None => { return Err(BonkrError::MathOverflow); },
    };
    let shrunk = match k.checked_div(grown) {
        Some(shrunk) => shrunk,
        None => { return Err(BonkrError::MathOverflow); },
    };
    proof {
        lemma_reserve_out_bounds(reserve_in as int, reserve_out as int, amount_in as int);
    }
    match reserve_out.checked_sub(shrunk) {
        Some(amount_out) => Ok(Swap { reserve_in: grown, reserve_out: shrunk, amount_out }),
        None => Err(BonkrError::MathOverflow),
    }
}

} // verus!
