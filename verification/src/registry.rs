//! The algorithm registry: keyed metadata records with single-owner
//! mutation rights and monotonic integer ids assigned from zero. A
//! collaborator of the treasury consulted by external tooling only; it
//! takes no part in fund movement.

use vstd::prelude::*;
use crate::base::{Address, Error};

verus! {

/// One algorithm's metadata record. Only its owner may change it.
#[derive(Debug, PartialEq, Eq)]
pub struct Algo {
    /// The sole identity with mutation rights over this record.
    pub owner: Address,
    /// Human-readable name.
    pub name: String,
    /// Where the full metadata lives.
    pub metadata_uri: String,
    /// A digest identifying the algorithm's parameters.
    pub params_hash: String,
    /// Lifecycle switch; a record starts active.
    pub active: bool,
}

/// The mathematical value of an `Algo`.
pub ghost struct AlgoView {
    pub owner: Address,
    pub name: Seq<char>,
    pub metadata_uri: Seq<char>,
    pub params_hash: Seq<char>,
    pub active: bool,
}

impl View for Algo {
    type V = AlgoView;

    open spec fn view(&self) -> AlgoView {
        AlgoView {
            owner: self.owner,
            name: self.name@,
            metadata_uri: self.metadata_uri@,
            params_hash: self.params_hash@,
            active: self.active,
        }
    }
}

/// The registry instance: an admin who may hand over control, and the
/// records in id order (the record with id `k` sits at position `k`).
pub struct AlgoRegistry {
    /// Administrative authority; `None` until initialized.
    pub admin: Option<Address>,
    /// The records, indexed by their ids.
    pub algos: Vec<Algo>,
}

impl AlgoRegistry {
    /// The registered records, in id order.
    pub open spec fn entries(self) -> Seq<AlgoView> {
        self.algos@.map_values(|a: Algo| a@)
    }

    /// The admin-only gate: missing admin means the instance was never
    /// initialized; any other caller is refused.
    pub open spec fn admin_gate(pre: AlgoRegistry, caller: Address) -> Result<(), Error> {
        match pre.admin {
            None => Err(Error::NotFound),
            Some(a) => if caller == a {
                Ok(())
            } else {
                Err(Error::Unauthorized)
            },
        }
    }

    /// Validity of a registry state: ids fit the 32-bit counter the
    /// service hands out.
    pub open spec fn wf(self) -> bool {
        self.algos@.len() <= u32::MAX
    }

    /// A fresh, uninitialized registry with no records.
    pub fn new() -> (reg: AlgoRegistry)
        ensures
            reg.wf(),
            reg.admin is None,
            reg.entries() == Seq::<AlgoView>::empty(),
    {
        let reg = AlgoRegistry { admin: None, algos: Vec::new() };
        proof {
            assert(reg.entries() =~= Seq::<AlgoView>::empty());
        }
        reg
    }

    /// Appoint the admin, exactly once. The claimed admin must be the
    /// authenticated caller.
    pub fn init(&mut self, caller: Address, admin: Address) -> (r: Result<(), Error>)
        requires
            old(self).wf(),
        ensures
            final(self).wf(),
            r == (if old(self).admin is Some {
                Err::<(), Error>(Error::AlreadyInitialized)
            } else if caller != admin {
                Err::<(), Error>(Error::Unauthorized)
            } else {
                Ok::<(), Error>(())
            }),
            r is Ok ==> final(self).admin == Some(admin) && final(self).algos == old(self).algos,
            r is Err ==> *final(self) == *old(self),
    {
        if self.admin.is_some() {
            return Err(Error::AlreadyInitialized);
        }
        if caller != admin {
            return Err(Error::Unauthorized);
        }
        self.admin = Some(admin);
        Ok(())
    }

    /// The admin, or `NotFound` before initialization.
    pub fn admin(&self) -> (r: Result<Address, Error>)
        ensures
            r == (match self.admin {
                Some(a) => Ok::<Address, Error>(a),
                None => Err::<Address, Error>(Error::NotFound),
            }),
    {
        match self.admin {
            Some(a) => Ok(a),
            None => Err(Error::NotFound),
        }
    }

    /// Register a new algorithm under the next id, owned by `owner`, who
    /// must be the authenticated caller. The record starts active; the
    /// assigned id is returned as a receipt.
    pub fn create_algo(
        &mut self,
        caller: Address,
        owner: Address,
        name: String,
        metadata_uri: String,
        params_hash: String,
    ) -> (r: Result<u32, Error>)
        requires
            old(self).wf(),
            old(self).entries().len() < u32::MAX,
        ensures
            final(self).wf(),
            match r {
                Ok(id) => {
                    &&& caller == owner
                    &&& id == old(self).entries().len()
                    &&& final(self).entries() == old(self).entries().push(
                        (AlgoView {
                            owner,
                            name: name@,
                            metadata_uri: metadata_uri@,
                            params_hash: params_hash@,
                            active: true,
                        }))
                    &&& final(self).admin == old(self).admin
                },
                Err(e) => {
                    &&& *final(self) == *old(self)
                    &&& caller != owner
                    &&& e == Error::Unauthorized
                },
            },
    {
        if caller != owner {
            return Err(Error::Unauthorized);
        }
        let id = self.algos.len() as u32;
        let ghost pre = self.algos@;
        self.algos.push(Algo { owner, name, metadata_uri, params_hash, active: true });
        proof {
            assert(self.algos@.map_values(|a: Algo| a@) =~= pre.map_values(|a: Algo| a@).push(
                self.algos@.last()@,
            ));
        }
        Ok(id)
    }

    /// Flip a record's lifecycle switch. Record owner only; a missing id is
    /// `NotFound`.
    pub fn set_active(&mut self, caller: Address, id: u32, active: bool) -> (r: Result<(), Error>)
        requires
            old(self).wf(),
        ensures
            final(self).wf(),
            match r {
                Ok(()) => {
                    &&& id < old(self).entries().len()
                    &&& caller == old(self).entries()[id as int].owner
                    &&& final(self).entries() == old(self).entries().update(id as int, (AlgoView {
                        active,
                        ..old(self).entries()[id as int]
                    }))
                    &&& final(self).admin == old(self).admin
                },
                Err(e) => {
                    &&& *final(self) == *old(self)
                    &&& if id >= old(self).entries().len() {
                        e == Error::NotFound
                    } else {
                        caller != old(self).entries()[id as int].owner && e == Error::Unauthorized
                    }
                },
            },
    {
        let idx = id as usize;
        if idx >= self.algos.len() {
            return Err(Error::NotFound);
        }
        if caller != self.algos[idx].owner {
            return Err(Error::Unauthorized);
        }
        let ghost pre = self.algos@;
        self.algos[idx].active = active;
        proof {
            assert(self.algos@.map_values(|a: Algo| a@) =~= pre.map_values(|a: Algo| a@).update(
                id as int,
                self.algos@[id as int]@,
            ));
        }
        Ok(())
    }

    /// Replace a record's metadata wholesale. Record owner only; a missing
    /// id is `NotFound`. The owner and the lifecycle switch stay as they
    /// were.
    pub fn update_metadata(
        &mut self,
        caller: Address,
        id: u32,
        name: String,
        metadata_uri: String,
        params_hash: String,
    ) -> (r: Result<(), Error>)
        requires
            old(self).wf(),
        ensures
            final(self).wf(),
            match r {
                Ok(()) => {
                    &&& id < old(self).entries().len()
                    &&& caller == old(self).entries()[id as int].owner
                    &&& final(self).entries() == old(self).entries().update(id as int, (AlgoView {
                        owner: old(self).entries()[id as int].owner,
                        name: name@,
                        metadata_uri: metadata_uri@,
                        params_hash: params_hash@,
                        active: old(self).entries()[id as int].active,
                    }))
                    &&& final(self).admin == old(self).admin
                },
                Err(e) => {
                    &&& *final(self) == *old(self)
                    &&& if id >= old(self).entries().len() {
                        e == Error::NotFound
                    } else {
                        caller != old(self).entries()[id as int].owner && e == Error::Unauthorized
                    }
                },
            },
    {
        let idx = id as usize;
        if idx >= self.algos.len() {
            return Err(Error::NotFound);
        }
        if caller != self.algos[idx].owner {
            return Err(Error::Unauthorized);
        }
        let ghost pre = self.algos@;
        self.algos[idx].name = name;
        self.algos[idx].metadata_uri = metadata_uri;
        self.algos[idx].params_hash = params_hash;
        proof {
            assert(self.algos@.map_values(|a: Algo| a@) =~= pre.map_values(|a: Algo| a@).update(
                id as int,
                self.algos@[id as int]@,
            ));
        }
        Ok(())
    }

    /// The record registered under `id`, or `None` when that id was never
    /// assigned.
    pub fn get_algo(&self, id: u32) -> (r: Option<Algo>)
        ensures
            match r {
                Some(a) => id < self.entries().len() && a@ == self.entries()[id as int],
                None => id >= self.entries().len(),
            },
    {
        let idx = id as usize;
        if idx >= self.algos.len() {
            return None;
        }
        let a = &self.algos[idx];
        Some(Algo {
            owner: a.owner,
            name: a.name.clone(),
            metadata_uri: a.metadata_uri.clone(),
            params_hash: a.params_hash.clone(),
            active: a.active,
        })
    }

    /// How many algorithms were ever registered; ids `0 .. total` are
    /// exactly the assigned ones.
    pub fn total_algos(&self) -> (n: u32)
        requires
            self.wf(),
        ensures
            n == self.entries().len(),
    {
        self.algos.len() as u32
    }

    /// Hand administrative control to a new admin. Admin only.
    pub fn transfer_admin(&mut self, caller: Address, new_admin: Address) -> (r: Result<(), Error>)
        requires
            old(self).wf(),
        ensures
            final(self).wf(),
            r == AlgoRegistry::admin_gate(*old(self), caller),
            r is Ok ==> final(self).admin == Some(new_admin) && final(self).algos == old(self).algos,
            r is Err ==> *final(self) == *old(self),
    {
        let a = match self.admin {
            Some(a) => a,
            None => return Err(Error::NotFound),
        };
        if caller != a {
            return Err(Error::Unauthorized);
        }
        self.admin = Some(new_admin);
        Ok(())
    }
}

} // verus!
