//! The per-creator vault: the same balance and delegated-authorization
//! state machine as the treasury vault, simplified. It is bound 1:1 to a
//! creator identity, carries an independent `paused` safety switch that
//! blocks deposits and execution spends (never the creator's withdrawal),
//! and has no audit-log or registry link.

use vstd::prelude::*;
use crate::base::{Address, Error, spend_authorized};

verus! {

/// One creator-bound vault. An instance starts uninitialized (no creator);
/// `initialize` fixes the creator and the asset once.
pub struct CreatorVault {
    /// The identity this vault belongs to; sole authority for withdrawal
    /// and configuration. `None` until initialized.
    pub creator: Option<Address>,
    /// The fungible asset this vault holds; set together with the creator.
    pub token: Option<Address>,
    /// Funds on hand; never negative.
    pub balance: i128,
    /// Delegated spender for execution payouts; `None` means the creator
    /// must authorize every spend personally.
    pub backend_executor: Option<Address>,
    /// The safety switch: when set, deposits and execution spends are
    /// refused; the creator's withdrawal stays open.
    pub paused: bool,
}

impl CreatorVault {
    /// Validity of a vault state: the balance never goes below zero, and
    /// the creator and the asset are fixed together at initialization.
    pub open spec fn wf(self) -> bool {
        &&& self.balance >= 0
        &&& (self.creator is Some <==> self.token is Some)
    }

    pub open spec fn initialized(self) -> bool {
        self.creator is Some
    }

    /// The creator-only gate: missing creator means the instance was never
    /// initialized; any other caller is refused.
    pub open spec fn creator_gate(pre: CreatorVault, caller: Address) -> Result<(), Error> {
        match pre.creator {
            None => Err(Error::NotFound),
            Some(c) => if caller == c {
                Ok(())
            } else {
                Err(Error::Unauthorized)
            },
        }
    }

    /// The decision a deposit comes to, in refusal order: a non-positive
    /// amount, then the safety switch. Deposits demand no authorization.
    pub open spec fn deposit_outcome(pre: CreatorVault, amount: i128) -> Result<(), Error> {
        if amount <= 0 {
            Err(Error::InvalidAmount)
        } else if pre.paused {
            Err(Error::Paused)
        } else {
            Ok(())
        }
    }

    /// The decision a withdrawal comes to, in refusal order. The safety
    /// switch does not block the creator's withdrawal.
    pub open spec fn withdraw_outcome(pre: CreatorVault, caller: Address, amount: i128) -> Result<(), Error> {
        if amount <= 0 {
            Err(Error::InvalidAmount)
        } else {
            match pre.creator {
                None => Err(Error::NotFound),
                Some(c) => if caller != c {
                    Err(Error::Unauthorized)
                } else if pre.balance < amount {
                    Err(Error::InsufficientBalance)
                } else {
                    Ok(())
                },
            }
        }
    }

    /// The decision an execution spend comes to, in refusal order. The
    /// caller must be the backend executor, or the creator when no executor
    /// is configured.
    pub open spec fn spend_outcome(pre: CreatorVault, caller: Address, amount: i128) -> Result<(), Error> {
        if amount <= 0 {
            Err(Error::InvalidAmount)
        } else if pre.paused {
            Err(Error::Paused)
        } else {
            match pre.creator {
                None => Err(Error::NotFound),
                Some(c) => if !spend_authorized(c, pre.backend_executor, caller) {
                    Err(Error::Unauthorized)
                } else if pre.balance < amount {
                    Err(Error::InsufficientBalance)
                } else {
                    Ok(())
                },
            }
        }
    }

    /// A fresh, uninitialized vault.
    pub fn new() -> (v: CreatorVault)
        ensures
            v.wf(),
            !v.initialized(),
            v == (CreatorVault {
                creator: None,
                token: None,
                balance: 0,
                backend_executor: None,
                paused: false,
            }),
    {
        CreatorVault { creator: None, token: None, balance: 0, backend_executor: None, paused: false }
    }

    /// Fix the creator and the asset, exactly once; the vault starts with a
    /// zero balance and the safety switch off.
    pub fn initialize(&mut self, creator: Address, token_contract: Address) -> (r: Result<(), Error>)
        requires
            old(self).wf(),
        ensures
            final(self).wf(),
            r == (if old(self).creator is Some {
                Err::<(), Error>(Error::AlreadyInitialized)
            } else {
                Ok::<(), Error>(())
            }),
            r is Ok ==> *final(self) == (CreatorVault {
                creator: Some(creator),
                token: Some(token_contract),
                balance: 0,
                backend_executor: old(self).backend_executor,
                paused: false,
            }),
            r is Err ==> *final(self) == *old(self),
    {
        if self.creator.is_some() {
            return Err(Error::AlreadyInitialized);
        }
        self.creator = Some(creator);
        self.token = Some(token_contract);
        self.balance = 0;
        self.paused = false;
        Ok(())
    }

    /// Receive funds. The balance grows by exactly the amount offered; a
    /// refused deposit moves nothing.
    pub fn deposit(&mut self, from: Address, amount: i128) -> (r: Result<(), Error>)
        requires
            old(self).wf(),
            old(self).balance + amount <= i128::MAX,
        ensures
            final(self).wf(),
            r == CreatorVault::deposit_outcome(*old(self), amount),
            r is Ok ==> *final(self) == (CreatorVault {
                balance: (old(self).balance + amount) as i128,
                ..*old(self)
            }),
            r is Err ==> *final(self) == *old(self),
    {
        let _ = from;
        if amount <= 0 {
            return Err(Error::InvalidAmount);
        }
        if self.paused {
            return Err(Error::Paused);
        }
        self.balance = self.balance + amount;
        Ok(())
    }

    /// Move funds out to `to`. Creator only; the balance never goes below
    /// zero, and a refused withdrawal moves nothing.
    pub fn withdraw(&mut self, caller: Address, to: Address, amount: i128) -> (r: Result<(), Error>)
        requires
            old(self).wf(),
        ensures
            final(self).wf(),
            r == CreatorVault::withdraw_outcome(*old(self), caller, amount),
            r is Ok ==> *final(self) == (CreatorVault {
                balance: (old(self).balance - amount) as i128,
                ..*old(self)
            }),
            r is Err ==> *final(self) == *old(self),
    {
        let _ = to;
        if amount <= 0 {
            return Err(Error::InvalidAmount);
        }
        let c = match self.creator {
            Some(c) => c,
            None => return Err(Error::NotFound),
        };
        if caller != c {
            return Err(Error::Unauthorized);
        }
        if self.balance < amount {
            return Err(Error::InsufficientBalance);
        }
        self.balance = self.balance - amount;
        Ok(())
    }

    /// Spend funds for a strategy execution payout. The caller must be the
    /// backend executor, or the creator when none is configured. `purpose`
    /// and `tx_hash` only annotate the host's event for the payout.
    pub fn spend_for_execution(
        &mut self,
        caller: Address,
        to: Address,
        amount: i128,
        purpose: String,
        tx_hash: String,
    ) -> (r: Result<(), Error>)
        requires
            old(self).wf(),
        ensures
            final(self).wf(),
            r == CreatorVault::spend_outcome(*old(self), caller, amount),
            r is Ok ==> *final(self) == (CreatorVault {
                balance: (old(self).balance - amount) as i128,
                ..*old(self)
            }),
            r is Err ==> *final(self) == *old(self),
    {
        let _ = to;
        let _ = purpose;
        let _ = tx_hash;
        if amount <= 0 {
            return Err(Error::InvalidAmount);
        }
        if self.paused {
            return Err(Error::Paused);
        }
        let c = match self.creator {
            Some(c) => c,
            None => return Err(Error::NotFound),
        };
        let authorized = match self.backend_executor {
            Some(e) => caller == e,
            None => caller == c,
        };
        if !authorized {
            return Err(Error::Unauthorized);
        }
        if self.balance < amount {
            return Err(Error::InsufficientBalance);
        }
        self.balance = self.balance - amount;
        Ok(())
    }

    /// Configure (or replace) the backend executor. Creator only.
    pub fn set_backend_executor(&mut self, caller: Address, executor: Address) -> (r: Result<(), Error>)
        requires
            old(self).wf(),
        ensures
            final(self).wf(),
            r == CreatorVault::creator_gate(*old(self), caller),
            r is Ok ==> *final(self) == (CreatorVault { backend_executor: Some(executor), ..*old(self) }),
            r is Err ==> *final(self) == *old(self),
    {
        let c = match self.creator {
            Some(c) => c,
            None => return Err(Error::NotFound),
        };
        if caller != c {
            return Err(Error::Unauthorized);
        }
        self.backend_executor = Some(executor);
        Ok(())
    }

    /// Throw or release the safety switch. Creator only.
    pub fn set_paused(&mut self, caller: Address, paused: bool) -> (r: Result<(), Error>)
        requires
            old(self).wf(),
        ensures
            final(self).wf(),
            r == CreatorVault::creator_gate(*old(self), caller),
            r is Ok ==> *final(self) == (CreatorVault { paused, ..*old(self) }),
            r is Err ==> *final(self) == *old(self),
    {
        let c = match self.creator {
            Some(c) => c,
            None => return Err(Error::NotFound),
        };
        if caller != c {
            return Err(Error::Unauthorized);
        }
        self.paused = paused;
        Ok(())
    }

    /// A read-only snapshot: creator, asset, funds on hand and the safety
    /// switch, or `NotFound` before initialization.
    pub fn get_vault_info(&self) -> (r: Result<(Address, Address, i128, bool), Error>)
        requires
            self.wf(),
        ensures
            r == (match (self.creator, self.token) {
                (Some(c), Some(t)) => Ok::<(Address, Address, i128, bool), Error>((c, t, self.balance, self.paused)),
                _ => Err::<(Address, Address, i128, bool), Error>(Error::NotFound),
            }),
    {
        let c = match self.creator {
            Some(c) => c,
            None => return Err(Error::NotFound),
        };
        let t = match self.token {
            Some(t) => t,
            None => return Err(Error::NotFound),
        };
        Ok((c, t, self.balance, self.paused))
    }

    /// The backend executor, if one is configured.
    pub fn get_backend_executor(&self) -> (r: Option<Address>)
        ensures
            r == self.backend_executor,
    {
        self.backend_executor
    }
}

/// Balance non-negativity for the creator vault: in every valid state, and
/// so after every sequence of deposits, withdrawals and execution spends
/// (each of which preserves validity), the balance is at least zero.
pub proof fn lemma_creator_vault_balance_nonnegative(v: CreatorVault)
    requires
        v.wf(),
    ensures
        v.balance >= 0,
{
}

/// Authorization soundness: a withdrawal can succeed only for the creator,
/// and an execution spend only for the backend executor — or for the
/// creator when none is configured; every other caller is refused without
/// the balance moving (the `Err` clauses of `withdraw` and
/// `spend_for_execution` leave the vault untouched).
pub proof fn lemma_creator_vault_authorization_sound(pre: CreatorVault, caller: Address, amount: i128)
    ensures
        CreatorVault::withdraw_outcome(pre, caller, amount) is Ok ==> pre.creator == Some(caller),
        CreatorVault::spend_outcome(pre, caller, amount) is Ok ==> match pre.backend_executor {
            Some(e) => caller == e,
            None => pre.creator == Some(caller),
        },
{
}

} // verus!
