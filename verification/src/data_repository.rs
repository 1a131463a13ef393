//! A keyed repository of classified byte strings.
//!
//! All inserted values are wrapped in [`ClassifiedData`], so removal and
//! replacement scrub the old material. Exclusive access is the caller's
//! concern: one repository is owned by one task, or guarded by one lock
//! in the host runtime.

use vstd::prelude::*;
use crate::classified_data::ClassifiedData;
use crate::classified_map::ClassifiedMap;
use crate::errors::SecureError;

verus! {

/// A store for securely keeping sensitive data by key.
pub struct DataRepository {
    storage: ClassifiedMap,
}

impl View for DataRepository {
    type V = Map<Seq<char>, Seq<u8>>;

    closed spec fn view(&self) -> Map<Seq<char>, Seq<u8>> {
        self.storage@
    }
}

impl DataRepository {
    /// An empty repository.
    pub fn new() -> (r: Self)
        ensures
            r@ == Map::<Seq<char>, Seq<u8>>::empty(),
    {
        DataRepository { storage: ClassifiedMap::new() }
    }

    /// Store a value under the given key, classifying it on the way in;
    /// a value already stored under the key is replaced (and zeroized
    /// when dropped).
    pub fn insert(&mut self, key: String, data: Vec<u8>) -> (r: Result<(), SecureError>)
        ensures
            r is Ok,
            final(self)@ == old(self)@.insert(key@, data@),
    {
        self.storage.insert(key, data);
        Ok(())
    }

    /// An explicit, auditable copy of the value stored under `key`, if
    /// any.
    pub fn get(&self, key: &str) -> (r: Option<ClassifiedData>)
        ensures
            (match r {
                Some(d) => self@.contains_key(key@) && d@ == self@[key@],
                None => !self@.contains_key(key@),
            }),
    {
        match self.storage.get(&String::from_str(key)) {
            Some(d) => Some(d.duplicate()),
            None => None,
        }
    }

    /// Remove the value stored under `key`; removing an absent key is a
    /// no-op. The removed classified value zeroizes when dropped.
    pub fn remove(&mut self, key: &str) -> (r: Result<(), SecureError>)
        ensures
            r is Ok,
            final(self)@ == old(self)@.remove(key@),
    {
        self.storage.remove(&String::from_str(key));
        Ok(())
    }
}

} // verus!
