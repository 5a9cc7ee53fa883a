//! A delegated treasury: fund-holding vaults with a two-tier authorization
//! model (owner vs. delegated executor), an append-only per-subject audit
//! log, an algorithm metadata registry, and a per-creator vault factory.
//!
//! Each service is a state machine over plain values. The host environment
//! that persists the state, authenticates callers, moves tokens and emits
//! events sits outside this crate; it hands every operation the
//! authenticated caller (and, where a record is stamped, the current time)
//! and applies the returned effects.

pub mod base;
pub mod history;
pub mod registry;
pub mod vault;
pub mod creator_vault;
pub mod factory;
