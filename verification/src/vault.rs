//! The treasury vault: a fund-holding state machine with owner-only
//! withdrawal, delegated algorithm spends, and an optional audit-log
//! binding. The vault's token balance is the ledger account it commands;
//! the host performs the actual asset transfer after a successful call.

use vstd::prelude::*;
use crate::base::{Address, Error, spend_authorized};

verus! {

/// A request the vault hands back on a successful algorithm spend when an
/// audit log is bound: the host must forward it to that log. The append is
/// deliberately outside the spend's failure domain: the spend is final even
/// if the audit write is never performed.
#[derive(Debug, PartialEq, Eq)]
pub struct AuditRequest {
    /// The audit-log instance bound to the vault when the spend committed.
    pub history: Address,
    /// The algorithm the spend is filed under.
    pub algo_id: u32,
    /// External transaction or settlement reference.
    pub tx_hash: String,
    /// Free-form annotation.
    pub note: String,
}

/// One fund-holding vault. An instance starts uninitialized (no owner);
/// `init` fixes the owner and the asset once.
pub struct Vault {
    /// Sole authority for withdrawal, delegation, binding and transfer;
    /// `None` until initialized.
    pub owner: Option<Address>,
    /// The fungible asset this vault holds; set together with the owner.
    pub token: Option<Address>,
    /// Delegated spender; `None` means the owner must authorize algorithm
    /// spends personally.
    pub executor: Option<Address>,
    /// The audit-log instance spends are mirrored into; `None` disables
    /// audit requests (spends still succeed).
    pub history: Option<Address>,
    /// Funds on hand; never negative.
    pub balance: i128,
}

impl Vault {
    /// Validity of a vault state: the balance never goes below zero, and
    /// the owner and the asset are fixed together at initialization.
    pub open spec fn wf(self) -> bool {
        &&& self.balance >= 0
        &&& (self.owner is Some <==> self.token is Some)
    }

    pub open spec fn initialized(self) -> bool {
        self.owner is Some
    }

    /// The owner-only gate: missing owner means the instance was never
    /// initialized; any caller other than the owner is refused.
    pub open spec fn owner_gate(pre: Vault, caller: Address) -> Result<(), Error> {
        match pre.owner {
            None => Err(Error::NotFound),
            Some(o) => if caller == o {
                Ok(())
            } else {
                Err(Error::Unauthorized)
            },
        }
    }

    /// The decision a deposit comes to, in refusal order: a non-positive
    /// amount, then the depositor's own authorization, then a missing asset
    /// binding on an uninitialized instance.
    pub open spec fn deposit_outcome(pre: Vault, caller: Address, from: Address, amount: i128) -> Result<(), Error> {
        if amount <= 0 {
            Err(Error::InvalidAmount)
        } else if caller != from {
            Err(Error::Unauthorized)
        } else if pre.token is None {
            Err(Error::NotFound)
        } else {
            Ok(())
        }
    }

    /// The decision a withdrawal comes to, in refusal order.
    pub open spec fn withdraw_outcome(pre: Vault, caller: Address, amount: i128) -> Result<(), Error> {
        if amount <= 0 {
            Err(Error::InvalidAmount)
        } else {
            match pre.owner {
                None => Err(Error::NotFound),
                Some(o) => if caller != o {
                    Err(Error::Unauthorized)
                } else if pre.balance < amount {
                    Err(Error::InsufficientBalance)
                } else {
                    Ok(())
                },
            }
        }
    }

    /// The decision an algorithm spend comes to, in refusal order. The
    /// caller must be the delegated executor, or the owner when no executor
    /// is delegated.
    pub open spec fn spend_outcome(pre: Vault, caller: Address, amount: i128) -> Result<(), Error> {
        if amount <= 0 {
            Err(Error::InvalidAmount)
        } else {
            match pre.owner {
                None => Err(Error::NotFound),
                Some(o) => if !spend_authorized(o, pre.executor, caller) {
                    Err(Error::Unauthorized)
                } else if pre.balance < amount {
                    Err(Error::InsufficientBalance)
                } else {
                    Ok(())
                },
            }
        }
    }

    /// A fresh, uninitialized vault.
    pub fn new() -> (v: Vault)
        ensures
            v.wf(),
            !v.initialized(),
            v == (Vault {
                owner: None,
                token: None,
                executor: None,
                history: None,
                balance: 0,
            }),
    {
        Vault { owner: None, token: None, executor: None, history: None, balance: 0 }
    }

    /// Fix the owner and the asset, exactly once. The claimed owner must be
    /// the authenticated caller; a second call is refused whoever makes it.
    pub fn init(&mut self, caller: Address, owner: Address, token_contract: Address) -> (r: Result<(), Error>)
        requires
            old(self).wf(),
        ensures
            final(self).wf(),
            r == (if old(self).owner is Some {
                Err::<(), Error>(Error::AlreadyInitialized)
            } else if caller != owner {
                Err::<(), Error>(Error::Unauthorized)
            } else {
                Ok::<(), Error>(())
            }),
            r is Ok ==> *final(self) == (Vault {
                owner: Some(owner),
                token: Some(token_contract),
                executor: old(self).executor,
                history: old(self).history,
                balance: 0,
            }),
            r is Err ==> *final(self) == *old(self),
    {
        if self.owner.is_some() {
            return Err(Error::AlreadyInitialized);
        }
        if caller != owner {
            return Err(Error::Unauthorized);
        }
        self.owner = Some(owner);
        self.token = Some(token_contract);
        self.balance = 0;
        Ok(())
    }

    /// The fixed owner, or `NotFound` before initialization.
    pub fn owner(&self) -> (r: Result<Address, Error>)
        ensures
            r == (match self.owner {
                Some(o) => Ok::<Address, Error>(o),
                None => Err::<Address, Error>(Error::NotFound),
            }),
    {
        match self.owner {
            Some(o) => Ok(o),
            None => Err(Error::NotFound),
        }
    }

    /// The asset this vault holds, or `NotFound` before initialization.
    pub fn token(&self) -> (r: Result<Address, Error>)
        ensures
            r == (match self.token {
                Some(t) => Ok::<Address, Error>(t),
                None => Err::<Address, Error>(Error::NotFound),
            }),
    {
        match self.token {
            Some(t) => Ok(t),
            None => Err(Error::NotFound),
        }
    }

    /// The delegated executor, if one is set.
    pub fn executor(&self) -> (r: Option<Address>)
        ensures
            r == self.executor,
    {
        self.executor
    }

    /// The bound audit log, if one is set.
    pub fn history(&self) -> (r: Option<Address>)
        ensures
            r == self.history,
    {
        self.history
    }

    /// Delegate (or replace) the executor. Owner only.
    pub fn set_executor(&mut self, caller: Address, executor: Address) -> (r: Result<(), Error>)
        requires
            old(self).wf(),
        ensures
            final(self).wf(),
            r == Vault::owner_gate(*old(self), caller),
            r is Ok ==> *final(self) == (Vault { executor: Some(executor), ..*old(self) }),
            r is Err ==> *final(self) == *old(self),
    {
        let o = match self.owner {
            Some(o) => o,
            None => return Err(Error::NotFound),
        };
        if caller != o {
            return Err(Error::Unauthorized);
        }
        self.executor = Some(executor);
        Ok(())
    }

    /// Remove the executor delegation. Owner only.
    pub fn clear_executor(&mut self, caller: Address) -> (r: Result<(), Error>)
        requires
            old(self).wf(),
        ensures
            final(self).wf(),
            r == Vault::owner_gate(*old(self), caller),
            r is Ok ==> *final(self) == (Vault { executor: None, ..*old(self) }),
            r is Err ==> *final(self) == *old(self),
    {
        let o = match self.owner {
            Some(o) => o,
            None => return Err(Error::NotFound),
        };
        if caller != o {
            return Err(Error::Unauthorized);
        }
        self.executor = None;
        Ok(())
    }

    /// Bind the audit-log instance spends are mirrored into. Owner only.
    pub fn set_history(&mut self, caller: Address, history_contract: Address) -> (r: Result<(), Error>)
        requires
            old(self).wf(),
        ensures
            final(self).wf(),
            r == Vault::owner_gate(*old(self), caller),
            r is Ok ==> *final(self) == (Vault { history: Some(history_contract), ..*old(self) }),
            r is Err ==> *final(self) == *old(self),
    {
        let o = match self.owner {
            Some(o) => o,
            None => return Err(Error::NotFound),
        };
        if caller != o {
            return Err(Error::Unauthorized);
        }
        self.history = Some(history_contract);
        Ok(())
    }

    /// Hand the vault ownership, with every right it carries, to a new
    /// owner. Owner only.
    pub fn transfer_ownership(&mut self, caller: Address, new_owner: Address) -> (r: Result<(), Error>)
        requires
            old(self).wf(),
        ensures
            final(self).wf(),
            r == Vault::owner_gate(*old(self), caller),
            r is Ok ==> *final(self) == (Vault { owner: Some(new_owner), ..*old(self) }),
            r is Err ==> *final(self) == *old(self),
    {
        let o = match self.owner {
            Some(o) => o,
            None => return Err(Error::NotFound),
        };
        if caller != o {
            return Err(Error::Unauthorized);
        }
        self.owner = Some(new_owner);
        Ok(())
    }

    /// Receive funds from `from`, who must be the authenticated caller. The
    /// balance grows by exactly the amount offered; a refused deposit moves
    /// nothing.
    pub fn deposit(&mut self, caller: Address, from: Address, amount: i128) -> (r: Result<(), Error>)
        requires
            old(self).wf(),
            old(self).balance + amount <= i128::MAX,
        ensures
            final(self).wf(),
            r == Vault::deposit_outcome(*old(self), caller, from, amount),
            r is Ok ==> *final(self) == (Vault { balance: (old(self).balance + amount) as i128, ..*old(self) }),
            r is Err ==> *final(self) == *old(self),
    {
        if amount <= 0 {
            return Err(Error::InvalidAmount);
        }
        if caller != from {
            return Err(Error::Unauthorized);
        }
        if self.token.is_none() {
            return Err(Error::NotFound);
        }
        self.balance = self.balance + amount;
        Ok(())
    }

    /// Move funds out to `to`. Owner only; the balance never goes below
    /// zero, and a refused withdrawal moves nothing.
    pub fn withdraw(&mut self, caller: Address, to: Address, amount: i128) -> (r: Result<(), Error>)
        requires
            old(self).wf(),
        ensures
            final(self).wf(),
            r == Vault::withdraw_outcome(*old(self), caller, amount),
            r is Ok ==> *final(self) == (Vault { balance: (old(self).balance - amount) as i128, ..*old(self) }),
            r is Err ==> *final(self) == *old(self),
    {
        let _ = to;
        if amount <= 0 {
            return Err(Error::InvalidAmount);
        }
        let o = match self.owner {
            Some(o) => o,
            None => return Err(Error::NotFound),
        };
        if caller != o {
            return Err(Error::Unauthorized);
        }
        if self.balance < amount {
            return Err(Error::InsufficientBalance);
        }
        self.balance = self.balance - amount;
        Ok(())
    }

    /// The funds on hand, or `NotFound` before initialization.
    pub fn balance(&self) -> (r: Result<i128, Error>)
        ensures
            r == (if self.token is Some {
                Ok::<i128, Error>(self.balance)
            } else {
                Err::<i128, Error>(Error::NotFound)
            }),
    {
        if self.token.is_some() {
            Ok(self.balance)
        } else {
            Err(Error::NotFound)
        }
    }

    /// Spend funds for an algorithm-driven payout. The caller must be the
    /// delegated executor, or the owner when none is delegated. On success
    /// the balance shrinks by the amount and, when an audit log is bound,
    /// the returned request carries the record the host must append there.
    /// The append is not part of this call's failure domain.
    pub fn spend_for_algo(
        &mut self,
        caller: Address,
        algo_id: u32,
        to: Address,
        amount: i128,
        tx_hash: String,
        note: String,
    ) -> (r: Result<Option<AuditRequest>, Error>)
        requires
            old(self).wf(),
        ensures
            final(self).wf(),
            match r {
                Ok(req) => {
                    &&& Vault::spend_outcome(*old(self), caller, amount) == Ok::<(), Error>(())
                    &&& *final(self) == (Vault { balance: (old(self).balance - amount) as i128, ..*old(self) })
                    &&& match (old(self).history, req) {
                        (Some(h), Some(q)) => q.history == h && q.algo_id == algo_id
                            && q.tx_hash@ == tx_hash@ && q.note@ == note@,
                        (None, None) => true,
                        _ => false,
                    }
                },
                Err(e) => {
                    &&& Vault::spend_outcome(*old(self), caller, amount) == Err::<(), Error>(e)
                    &&& *final(self) == *old(self)
                },
            },
    {
        let _ = to;
        if amount <= 0 {
            return Err(Error::InvalidAmount);
        }
        let o = match self.owner {
            Some(o) => o,
            None => return Err(Error::NotFound),
        };
        let authorized = match self.executor {
            Some(e) => caller == e,
            None => caller == o,
        };
        if !authorized {
            return Err(Error::Unauthorized);
        }
        if self.balance < amount {
            return Err(Error::InsufficientBalance);
        }
        self.balance = self.balance - amount;
        match self.history {
            Some(h) => Ok(Some(AuditRequest { history: h, algo_id, tx_hash, note })),
            None => Ok(None),
        }
    }
}

/// Balance non-negativity: in every valid vault state, and so after every
/// sequence of deposits, withdrawals and spends (each of which preserves
/// validity), the balance is at least zero.
pub proof fn lemma_vault_balance_nonnegative(v: Vault)
    requires
        v.wf(),
    ensures
        v.balance >= 0,
{
}

/// Authorization soundness: a withdrawal can succeed only for the owner,
/// and an algorithm spend only for the delegated executor — or for the
/// owner when no executor is delegated; every other caller is refused
/// without the balance moving (the `Err` clauses of `withdraw` and
/// `spend_for_algo` leave the vault untouched).
pub proof fn lemma_vault_authorization_sound(pre: Vault, caller: Address, amount: i128)
    ensures
        Vault::withdraw_outcome(pre, caller, amount) is Ok ==> pre.owner == Some(caller),
        Vault::spend_outcome(pre, caller, amount) is Ok ==> match pre.executor {
            Some(e) => caller == e,
            None => pre.owner == Some(caller),
        },
{
}

} // verus!
