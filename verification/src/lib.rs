//! An on-ledger "treasure chest" claim mechanism.
//!
//! A chest account holds a pool of native currency units; each participant
//! may claim from the chest exactly once, tracked by a per-participant
//! claimant account. The crate covers deterministic address derivation from
//! seed material, the one-time-claim state machine, and atomic,
//! overflow-checked movement of value between accounts.

pub mod account;
pub mod address;
pub mod laws;
pub mod ops;
