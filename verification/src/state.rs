use vstd::prelude::*;

use crate::errors::ConditionalError;
use crate::identity::Pubkey;

verus! {

/// The durable configuration record of one deployment. It is created once,
/// never deleted, and mutated in place only by the stored `authority`.
#[derive(Clone, Copy, PartialEq, Eq, Structural, Debug)]
pub struct Config {
    /// Identity permitted to reconfigure this record.
    pub authority: Pubkey,
    /// Identity permitted to authorize outgoing transfers; it must co-sign
    /// every transfer request.
    pub from: Pubkey,
    /// Identity that receives transferred value.
    pub to: Pubkey,
    /// Minimum amount, inclusive, in the smallest value unit, that a
    /// transfer must reach to be permitted.
    pub threshold_lamports: u64,
    /// The derivation tag under which this record's canonical address was
    /// derived, persisted so later calls can re-verify the address cheaply.
    pub bump: u8,
}

impl Config {
    /// A well-formed record names no participant by the zero identity.
    pub open spec fn wf(self) -> bool {
        &&& self.authority != Pubkey::zero()
        &&& self.from != Pubkey::zero()
        &&& self.to != Pubkey::zero()
    }
}

/// One deployment namespace's record slot: at most one [`Config`], at an
/// address derived from the namespace, plus the namespace's canonical
/// derivation tag. The durable storage itself, and the derivation of the
/// tag, belong to the hosting environment; this type models what the
/// environment serializes an operation against.
#[derive(Clone, Copy, PartialEq, Eq, Debug)]
pub struct ConfigStore {
    /// The canonical derivation tag of this namespace, computed once by the
    /// hosting environment when the deployment is set up.
    pub canonical_tag: u8,
    /// The record, absent until `initialize` creates it.
    pub record: Option<Config>,
}

impl ConfigStore {
    /// A well-formed store holds either nothing or a well-formed record
    /// whose persisted tag is the canonical one.
    pub open spec fn wf(self) -> bool {
        match self.record {
            Some(cfg) => cfg.wf() && cfg.bump == self.canonical_tag,
            None => true,
        }
    }

    /// What `load` returns: the record, or `NotFound` when none was ever
    /// created, or `AddressMismatch` when the persisted tag fails the
    /// canonical-derivation check.
    pub open spec fn spec_load(self) -> Result<Config, ConditionalError> {
        match self.record {
            None => Err(ConditionalError::NotFound),
            Some(cfg) => if cfg.bump != self.canonical_tag {
                Err(ConditionalError::AddressMismatch)
            } else {
                Ok(cfg)
            },
        }
    }

    /// An empty slot for a namespace whose canonical tag is `canonical_tag`.
    pub fn new(canonical_tag: u8) -> (s: ConfigStore)
        ensures
            s == (ConfigStore { canonical_tag, record: None }),
    {
        ConfigStore { canonical_tag, record: None }
    }

    /// Allocates the record. Fails with `AlreadyExists`, leaving the slot
    /// untouched, when a record is already present.
    pub fn create(&mut self, cfg: Config) -> (r: Result<(), ConditionalError>)
        ensures
            old(self).record is Some ==> r == Err::<(), ConditionalError>(
                ConditionalError::AlreadyExists,
            ) && *final(self) == *old(self),
            old(self).record is None ==> r == Ok::<(), ConditionalError>(()) && *final(self)
                == (ConfigStore { canonical_tag: old(self).canonical_tag, record: Some(cfg) }),
    {
        if self.record.is_some() {
            Err(ConditionalError::AlreadyExists)
        } else {
            self.record = Some(cfg);
            Ok(())
        }
    }

    /// Retrieves the record, verifying its persisted derivation tag against
    /// the canonical one. The slot itself is never changed by a load.
    pub fn load(&self) -> (r: Result<Config, ConditionalError>)
        ensures
            r == self.spec_load(),
    {
        match self.record {
            None => Err(ConditionalError::NotFound),
            Some(cfg) => if cfg.bump != self.canonical_tag {
                Err(ConditionalError::AddressMismatch)
            } else {
                Ok(cfg)
            },
        }
    }

    /// Persists a mutated record; visible to every later `load`.
    pub fn save(&mut self, cfg: Config)
        ensures
            *final(self) == (ConfigStore {
                canonical_tag: old(self).canonical_tag,
                record: Some(cfg),
            }),
    {
        self.record = Some(cfg);
    }
}

} // verus!
