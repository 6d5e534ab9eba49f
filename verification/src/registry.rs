//! The handler registry: a mapping from dispatch key to one owned handler.

use vstd::prelude::*;
use std::collections::HashMap;
use crate::error::RegistryError;

verus! {

broadcast use vstd::std_specs::hash::group_hash_axioms;

/// Maps each dispatch key to the one handler registered under it. The
/// registry owns its handlers; entries live until the registry is dropped.
/// Registration under an already-bound key is rejected, never a silent
/// replacement.
pub struct Registry<H> {
    map: HashMap<u64, H>,
}

impl<H> View for Registry<H> {
    type V = Map<u64, H>;

    closed spec fn view(&self) -> Map<u64, H> {
        self.map@
    }
}

impl<H> Registry<H> {
    /// Creates an empty registry.
    pub fn new() -> (r: Self)
        ensures
            r@ == Map::<u64, H>::empty(),
    {
        Registry { map: HashMap::new() }
    }

    /// Whether a handler is registered under `key`. Non-mutating read.
    pub fn contains(&self, key: u64) -> (r: bool)
        ensures
            r == self@.contains_key(key),
    {
        self.map.contains_key(&key)
    }

    /// The handler registered under `key`, if any. Non-mutating read.
    pub fn lookup(&self, key: u64) -> (r: Option<&H>)
        ensures
            match r {
                Some(h) => self@.contains_key(key) && *h == self@[key],
                None => !self@.contains_key(key),
            },
    {
        self.map.get(&key)
    }

    /// Stores `handler` under `key`. Rejects a key that is already bound,
    /// leaving the existing binding in place.
    pub fn register(&mut self, key: u64, handler: H) -> (r: Result<(), RegistryError>)
        ensures
            final(self)@ == (if old(self)@.contains_key(key) {
                old(self)@
            } else {
                old(self)@.insert(key, handler)
            }),
            r == (if old(self)@.contains_key(key) {
                Err::<(), RegistryError>(RegistryError::DuplicateKey)
            } else {
                Ok::<(), RegistryError>(())
            }),
    {
        if self.map.contains_key(&key) {
            Err(RegistryError::DuplicateKey)
        } else {
            self.map.insert(key, handler);
            Ok(())
        }
    }
}

} // verus!
