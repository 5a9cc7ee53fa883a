//! Identities and the error taxonomy shared by every service.

use vstd::prelude::*;

verus! {

/// An authenticated principal or contract identity. The host names
/// identities opaquely; this crate only stores and compares them, so each
/// one is carried as a plain numeric handle chosen by the host.
#[derive(Clone, Copy, PartialEq, Eq, Structural, Debug)]
pub struct Address {
    pub id: u64,
}

/// Why an operation was refused. Every failure aborts the whole call with
/// no partial mutation.
#[derive(Clone, Copy, PartialEq, Eq, Structural, Debug)]
pub enum Error {
    /// The instance (or the creator's slot in the factory) is already set up.
    AlreadyInitialized,
    /// The caller does not hold the role the operation demands.
    Unauthorized,
    /// A non-positive amount was offered for a fund movement.
    InvalidAmount,
    /// The movement would drive the balance below zero.
    InsufficientBalance,
    /// Required state (owner, asset, creator, record) is missing: the
    /// instance was never initialized or the key was never written.
    NotFound,
    /// The safety switch blocks this operation.
    Paused,
}

/// The delegated-spend authorization rule shared by both vault variants:
/// when an executor is delegated only that executor may spend; with no
/// delegate the owner must authorize every spend personally.
pub open spec fn spend_authorized(owner: Address, executor: Option<Address>, caller: Address) -> bool {
    match executor {
        Some(e) => caller == e,
        None => caller == owner,
    }
}

} // verus!
