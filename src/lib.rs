//! An owner-controlled registry of wallet risk verifications.
//!
//! The host environment (caller identity, block clock, event delivery) is
//! handed to the registry as an `Env` value, so every decision the registry
//! makes is a verified function of plain values.

pub mod laws;
pub mod registry;
mod table;
pub mod types;

pub use registry::{BatchEntry, Env, VerificationContract};
pub use types::{
    bytes_equal, AccountId, RiskLevel, VerificationData, VerificationError, WalletAddress,
    WalletVerified, MAX_RISK_SCORE,
};
