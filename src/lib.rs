//! A hashed timelock contract ledger: escrowed deposits released either to
//! the receiver against a secret matching a committed digest, or back to the
//! sender once a deadline has passed.

pub mod host;
pub mod ident;
pub mod laws;
pub mod ledger;
pub mod types;

pub use types::{Address, HTLCData, HTLCState, HtlcError, Payout};
pub use ledger::SynapPayStellarHTLC;
