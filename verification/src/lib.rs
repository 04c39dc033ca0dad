//! Economic engine of a bonding-curve token launch platform.
//!
//! Anyone can create a token whose price follows a constant-product curve,
//! trade against that curve, and have the token graduate once enough has been
//! deposited. Every trade splits off a platform fee, a creator fee and a burn.
//!
//! The engine decides and computes; it moves no value itself. Each operation
//! takes the records it works on, changes them, and returns what the ledger
//! has to transfer, mint, burn or announce. A refused operation changes
//! nothing.

pub mod admin;
pub mod curve;
pub mod errors;
pub mod events;
pub mod factory;
pub mod fees;
pub mod graduation;
pub mod history;
pub mod identity;
pub mod laws;
pub mod state;
pub mod trading;

pub use admin::{
    admin_recovery, pause, transfer_authority, unpause, AdminAction, AdminRecovery,
    TransferAuthority,
};
pub use errors::BonkrError;
pub use events::{ReadyToGraduate, TokenCreated, TokenGraduated};
pub use factory::{create_token, initialize, CreateToken, Initialize};
pub use fees::{claim_creator_fees, ClaimCreatorFees};
pub use graduation::{graduate, Graduate};
pub use identity::Identity;
pub use state::{FactoryConfig, TokenState};
pub use trading::{buy, sell, BuyReceipt, SellReceipt, Trade};
