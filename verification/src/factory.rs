//! The creator-vault factory: provisioning and lookup of per-creator
//! vaults, one per creator identity. Deployment and address derivation are
//! the host's concern; the factory records each creator's vault handle,
//! which here is the creator's own identity standing in for the vault.

use vstd::prelude::*;
use crate::base::{Address, Error};

verus! {

/// One provisioning record: which vault handle a creator was given.
#[derive(Clone, Copy, PartialEq, Eq, Structural, Debug)]
pub struct CreatorEntry {
    pub creator: Address,
    pub vault: Address,
}

/// The vault handle filed under `creator` in a run of provisioning
/// records: the first record carrying that creator, or `None` when none
/// does.
pub open spec fn vault_of(entries: Seq<CreatorEntry>, creator: Address) -> Option<Address>
    decreases entries.len(),
{
    if entries.len() == 0 {
        None
    } else if entries[0].creator == creator {
        Some(entries[0].vault)
    } else {
        vault_of(entries.skip(1), creator)
    }
}

/// A creator nowhere in the run has no vault.
pub proof fn lemma_vault_of_not_present(entries: Seq<CreatorEntry>, creator: Address)
    requires
        forall|j: int| 0 <= j < entries.len() ==> entries[j].creator != creator,
    ensures
        vault_of(entries, creator) is None,
    decreases entries.len(),
{
    if entries.len() > 0 {
        assert(forall|j: int| 0 <= j < entries.skip(1).len() ==> entries.skip(1)[j] == entries[j + 1]);
        lemma_vault_of_not_present(entries.skip(1), creator);
    }
}

/// A creator's vault is the one in its first (hence only maintained)
/// record.
pub proof fn lemma_vault_of_at(entries: Seq<CreatorEntry>, i: int, creator: Address)
    requires
        0 <= i < entries.len(),
        entries[i].creator == creator,
        forall|j: int| 0 <= j < i ==> entries[j].creator != creator,
    ensures
        vault_of(entries, creator) == Some(entries[i].vault),
    decreases i,
{
    if i > 0 {
        assert(forall|j: int| 0 <= j < entries.skip(1).len() ==> entries.skip(1)[j] == entries[j + 1]);
        lemma_vault_of_at(entries.skip(1), i - 1, creator);
    }
}

/// Provisioning a vault for a new creator leaves every other creator's
/// record unchanged.
pub proof fn lemma_vault_of_push_other(entries: Seq<CreatorEntry>, e: CreatorEntry, t: Address)
    requires
        t != e.creator,
    ensures
        vault_of(entries.push(e), t) == vault_of(entries, t),
    decreases entries.len(),
{
    let ext = entries.push(e);
    if entries.len() == 0 {
        assert(ext[0] == e);
        assert(ext.skip(1) =~= Seq::<CreatorEntry>::empty());
        assert(vault_of(ext, t) == vault_of(ext.skip(1), t));
    } else {
        assert(ext[0] == entries[0]);
        if entries[0].creator != t {
            assert(ext.skip(1) =~= entries.skip(1).push(e));
            lemma_vault_of_push_other(entries.skip(1), e, t);
            assert(vault_of(ext, t) == vault_of(ext.skip(1), t));
            assert(vault_of(entries, t) == vault_of(entries.skip(1), t));
        }
    }
}

/// The factory instance: an admin, the asset every provisioned vault will
/// hold, and the provisioning records.
pub struct CreatorVaultFactory {
    /// Administrative authority; `None` until initialized.
    pub admin: Option<Address>,
    /// The asset handed to every provisioned vault; `None` until
    /// initialized.
    pub token: Option<Address>,
    /// The provisioning records, in provisioning order.
    pub entries: Vec<CreatorEntry>,
}

impl CreatorVaultFactory {
    /// The vault handle provisioned for `creator`, if any.
    pub open spec fn vault_for(self, creator: Address) -> Option<Address> {
        vault_of(self.entries@, creator)
    }

    /// The admin-only gate: missing admin means the instance was never
    /// initialized; any other caller is refused.
    pub open spec fn admin_gate(pre: CreatorVaultFactory, caller: Address) -> Result<(), Error> {
        match pre.admin {
            None => Err(Error::NotFound),
            Some(a) => if caller == a {
                Ok(())
            } else {
                Err(Error::Unauthorized)
            },
        }
    }

    /// Validity of a factory state: the admin and the asset are fixed
    /// together at initialization.
    pub open spec fn wf(self) -> bool {
        self.admin is Some <==> self.token is Some
    }

    /// A fresh, uninitialized factory with no vaults provisioned.
    pub fn new() -> (f: CreatorVaultFactory)
        ensures
            f.wf(),
            f.admin is None,
            f.token is None,
            forall|c: Address| f.vault_for(c) is None,
    {
        let f = CreatorVaultFactory { admin: None, token: None, entries: Vec::new() };
        proof {
            assert forall|c: Address| f.vault_for(c) is None by {
                lemma_vault_of_not_present(f.entries@, c);
            }
        }
        f
    }

    /// Fix the admin and the asset, exactly once.
    pub fn initialize(&mut self, admin: Address, token_contract: Address) -> (r: Result<(), Error>)
        requires
            old(self).wf(),
        ensures
            final(self).wf(),
            r == (if old(self).admin is Some {
                Err::<(), Error>(Error::AlreadyInitialized)
            } else {
                Ok::<(), Error>(())
            }),
            r is Ok ==> final(self).admin == Some(admin) && final(self).token == Some(token_contract)
                && final(self).entries == old(self).entries,
            r is Err ==> *final(self) == *old(self),
    {
        if self.admin.is_some() {
            return Err(Error::AlreadyInitialized);
        }
        self.admin = Some(admin);
        self.token = Some(token_contract);
        Ok(())
    }

    /// The index of the provisioning record filed under `creator`, if any;
    /// earlier records never carry the same creator.
    fn find_entry(&self, creator: Address) -> (r: Option<usize>)
        ensures
            match r {
                Some(i) => i < self.entries@.len() && self.entries@[i as int].creator == creator
                    && forall|j: int| 0 <= j < i ==> self.entries@[j].creator != creator,
                None => forall|j: int| 0 <= j < self.entries@.len() ==> self.entries@[j].creator != creator,
            },
    {
        let n = self.entries.len();
        let mut i: usize = 0;
        while i < n
            invariant
                i <= n,
                n == self.entries@.len(),
                forall|j: int| 0 <= j < i ==> self.entries@[j].creator != creator,
            decreases n - i,
        {
            if self.entries[i].creator == creator {
                return Some(i);
            }
            i = i + 1;
        }
        None
    }

    /// Provision a vault for `creator`, at most one per creator. The vault
    /// handle returned — and recorded — is the creator's own identity:
    /// actual contract deployment is the host's concern.
    pub fn create_creator_vault(&mut self, creator: Address) -> (r: Result<Address, Error>)
        requires
            old(self).wf(),
        ensures
            final(self).wf(),
            match r {
                Ok(v) => {
                    &&& old(self).vault_for(creator) is None
                    &&& old(self).token is Some
                    &&& v == creator
                    &&& final(self).vault_for(creator) == Some(v)
                    &&& forall|c: Address| c != creator ==> final(self).vault_for(c) == old(self).vault_for(c)
                    &&& final(self).admin == old(self).admin
                    &&& final(self).token == old(self).token
                },
                Err(e) => {
                    &&& *final(self) == *old(self)
                    &&& if old(self).vault_for(creator) is Some {
                        e == Error::AlreadyInitialized
                    } else {
                        old(self).token is None && e == Error::NotFound
                    }
                },
            },
    {
        match self.find_entry(creator) {
            Some(i) => {
                proof {
                    lemma_vault_of_at(self.entries@, i as int, creator);
                }
                Err(Error::AlreadyInitialized)
            },
            None => {
                proof {
                    lemma_vault_of_not_present(self.entries@, creator);
                }
                if self.token.is_none() {
                    return Err(Error::NotFound);
                }
                let entry = CreatorEntry { creator, vault: creator };
                let ghost pre = self.entries@;
                self.entries.push(entry);
                proof {
                    lemma_vault_of_at(self.entries@, pre.len() as int, creator);
                    assert forall|c: Address| c != creator implies vault_of(self.entries@, c) == vault_of(pre, c) by {
                        lemma_vault_of_push_other(pre, entry, c);
                    }
                }
                Ok(creator)
            },
        }
    }

    /// The vault handle provisioned for `creator`, or `None`.
    pub fn get_creator_vault(&self, creator: Address) -> (r: Option<Address>)
        ensures
            r == self.vault_for(creator),
    {
        match self.find_entry(creator) {
            Some(i) => {
                proof {
                    lemma_vault_of_at(self.entries@, i as int, creator);
                }
                Some(self.entries[i].vault)
            },
            None => {
                proof {
                    lemma_vault_of_not_present(self.entries@, creator);
                }
                None
            },
        }
    }

    /// Whether a vault was provisioned for `creator`.
    pub fn is_creator_registered(&self, creator: Address) -> (r: bool)
        ensures
            r == (self.vault_for(creator) is Some),
    {
        self.get_creator_vault(creator).is_some()
    }

    /// Enumerate registered creators. No enumeration order is maintained,
    /// so every page is empty whatever the window asked for; lookups go
    /// through `get_creator_vault`.
    pub fn get_registered_creators(&self, offset: u32, limit: u32) -> (r: Vec<Address>)
        ensures
            r@ == Seq::<Address>::empty(),
    {
        let _ = offset;
        let _ = limit;
        let r: Vec<Address> = Vec::new();
        proof {
            assert(r@ =~= Seq::<Address>::empty());
        }
        r
    }

    /// Hand administrative control to a new admin. Admin only.
    pub fn update_admin(&mut self, caller: Address, new_admin: Address) -> (r: Result<(), Error>)
        requires
            old(self).wf(),
        ensures
            final(self).wf(),
            r == CreatorVaultFactory::admin_gate(*old(self), caller),
            r is Ok ==> final(self).admin == Some(new_admin) && final(self).token == old(self).token
                && final(self).entries == old(self).entries,
            r is Err ==> *final(self) == *old(self),
    {
        let a = match self.admin {
            Some(a) => a,
            None => return Err(Error::NotFound),
        };
        if caller != a {
            return Err(Error::Unauthorized);
        }
        self.admin = Some(new_admin);
        Ok(())
    }

    /// Point newly provisioned vaults at another asset. Admin only;
    /// already-provisioned records stay as they are.
    pub fn update_token_contract(&mut self, caller: Address, new_token_contract: Address) -> (r: Result<(), Error>)
        requires
            old(self).wf(),
        ensures
            final(self).wf(),
            r == CreatorVaultFactory::admin_gate(*old(self), caller),
            r is Ok ==> final(self).token == Some(new_token_contract) && final(self).admin == old(self).admin
                && final(self).entries == old(self).entries,
            r is Err ==> *final(self) == *old(self),
    {
        let a = match self.admin {
            Some(a) => a,
            None => return Err(Error::NotFound),
        };
        if caller != a {
            return Err(Error::Unauthorized);
        }
        self.token = Some(new_token_contract);
        Ok(())
    }

    /// The admin and the asset, or `NotFound` before initialization.
    pub fn get_factory_info(&self) -> (r: Result<(Address, Address), Error>)
        requires
            self.wf(),
        ensures
            r == (match (self.admin, self.token) {
                (Some(a), Some(t)) => Ok::<(Address, Address), Error>((a, t)),
                _ => Err::<(Address, Address), Error>(Error::NotFound),
            }),
    {
        let a = match self.admin {
            Some(a) => a,
            None => return Err(Error::NotFound),
        };
        let t = match self.token {
            Some(t) => t,
            None => return Err(Error::NotFound),
        };
        Ok((a, t))
    }
}

} // verus!
