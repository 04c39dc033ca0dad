//! The records the engine announces. Their order and delivery are the
//! ledger's business.

use crate::identity::Identity;
use vstd::prelude::*;

verus! {

/// A token was created.
#[derive(Clone, Debug, PartialEq, Eq)]
pub struct TokenCreated {
    pub mint: Identity,
    pub creator: Identity,
    pub name: String,
    pub symbol: String,
    pub total_supply: u64,
    pub timestamp: i64,
}

/// After a purchase the deposits of a token are at or above the graduation
/// threshold. The signal is advice: it graduates nothing.
#[derive(Clone, Copy, Debug, PartialEq, Eq)]
pub struct ReadyToGraduate {
    pub mint: Identity,
    pub sol_raised: u64,
    pub timestamp: i64,
}

/// A token graduated and stopped trading.
#[derive(Clone, Copy, Debug, PartialEq, Eq)]
pub struct TokenGraduated {
    pub mint: Identity,
    pub sol_raised: u64,
    pub circulating_supply: u64,
    pub timestamp: i64,
}

} // verus!
