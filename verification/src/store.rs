//! The storage handle: one record slot and one version-tag slot.
//!
//! The host owns the persistent storage and its transactional guarantees;
//! this handle is the explicit, injected stand-in for that single slot, with
//! `load`/`save` as its persistence interface. Its model is `StoreModel`,
//! and every operation's contract is stated over that model.

use vstd::prelude::*;

use crate::error::ContractError;
use crate::state::{State, StateModel};

verus! {

/// The version tag recorded once at creation for host-level migration
/// bookkeeping; no operation's logic reads it.
#[derive(Debug)]
pub struct ContractVersion {
    pub contract: String,
    pub version: String,
}

/// Model of the whole storage instance: the record slot, and the version
/// tag as a (contract, version) pair of character sequences.
pub ghost struct StoreModel {
    pub record: Option<StateModel>,
    pub version: Option<(Seq<char>, Seq<char>)>,
}

/// The single storage slot this library manages. Exactly one record can be
/// present at a time; a slot with no record is an uninitialised store.
#[derive(Debug)]
pub struct Store {
    record: Option<State>,
    version: Option<ContractVersion>,
}

impl View for Store {
    type V = StoreModel;

    closed spec fn view(&self) -> StoreModel {
        StoreModel {
            record: match self.record {
                Some(state) => Some(state@),
                None => None,
            },
            version: match self.version {
                Some(v) => Some((v.contract@, v.version@)),
                None => None,
            },
        }
    }
}

impl Store {
    /// A fresh storage instance: no record was ever created in it.
    pub fn new() -> (s: Store)
        ensures
            s@.record is None,
            s@.version is None,
    {
        Store { record: None, version: None }
    }

    /// Writes the record slot, overwriting any prior record.
    pub fn save(&mut self, state: State)
        ensures
            final(self)@.record == Some(state@),
            final(self)@.version == old(self)@.version,
    {
        self.record = Some(state);
    }

    /// Reads the record slot; fails with `NotFound` when no record was ever
    /// saved.
    pub fn load(&self) -> (r: Result<&State, ContractError>)
        ensures
            match r {
                Ok(state) => self@.record == Some(state@),
                Err(e) => e == ContractError::NotFound && self@.record is None,
            },
    {
        match &self.record {
            Some(state) => Ok(state),
            None => Err(ContractError::NotFound),
        }
    }

    /// The record slot as it stands, without the failure wrapping of `load`.
    pub fn record(&self) -> (r: Option<&State>)
        ensures
            match r {
                Some(state) => self@.record == Some(state@),
                None => self@.record is None,
            },
    {
        match &self.record {
            Some(state) => Some(state),
            None => None,
        }
    }

    /// Records the version tag, overwriting any prior tag; the record slot
    /// is untouched.
    pub fn set_contract_version(&mut self, contract: String, version: String)
        ensures
            final(self)@.version == Some((contract@, version@)),
            final(self)@.record == old(self)@.record,
    {
        self.version = Some(ContractVersion { contract, version });
    }

    /// The version tag as it stands.
    pub fn version_tag(&self) -> (r: Option<&ContractVersion>)
        ensures
            match r {
                Some(v) => self@.version == Some((v.contract@, v.version@)),
                None => self@.version is None,
            },
    {
        match &self.version {
            Some(v) => Some(v),
            None => None,
        }
    }
}

} // verus!
