//! A raffle escrow engine: a registry issues raffle identifiers, each raffle
//! record walks a guarded lifecycle (creation, fee-paying entry, winner
//! selection after expiry, closure when empty, claim settlement), and every
//! transition is validated before any state is written.
//!
//! The surrounding ledger runtime — keyed record storage, signature checks,
//! fund and asset transfers, the clock and slot counter — is out of scope
//! here: callers load records, hand the engine plain values (the verified
//! caller identity, the current time and slot, a transfer outcome), and
//! persist the mutated records afterwards.

pub mod engine;
pub mod errors;
pub mod laws;
pub mod state;
