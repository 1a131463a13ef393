//! A keyed store of cryptographic key material with wholesale rotation.
//!
//! Keys are accepted only at their declared length, stored as classified
//! values, compared in constant time, and replaced wholesale on
//! rotation (the replaced classified value zeroizes when dropped).
//!
//! The manager itself holds no timer: a host runtime that wants periodic
//! rotation calls [`KeyManager::rotate_keys`] every
//! [`KeyManager::rotation_interval_secs`] seconds.

use vstd::prelude::*;
use crate::classified_data::ClassifiedData;
use crate::classified_data::ct_bytes_eq;
use crate::classified_map::ClassifiedMap;
use crate::errors::SecureError;

verus! {

/// The placeholder key material rotation installs: 32 zero bytes.
pub open spec fn spec_rotated_key() -> Seq<u8> {
    Seq::new(32, |i: int| 0u8)
}

/// A concurrent-use key store; exclusive access is the caller's concern
/// (one manager is owned by one service, or guarded by one lock).
pub struct KeyManager {
    keys: ClassifiedMap,
    rotation_interval_secs: u64,
}

impl View for KeyManager {
    type V = Map<Seq<char>, Seq<u8>>;

    closed spec fn view(&self) -> Map<Seq<char>, Seq<u8>> {
        self.keys@
    }
}

impl KeyManager {
    /// The rotation period, in seconds, that a host runtime should honor.
    pub closed spec fn spec_rotation_interval_secs(&self) -> u64 {
        self.rotation_interval_secs
    }

    /// An empty manager with the given rotation period.
    pub fn new(rotation_interval_secs: u64) -> (r: Self)
        ensures
            r@ == Map::<Seq<char>, Seq<u8>>::empty(),
            r.spec_rotation_interval_secs() == rotation_interval_secs,
    {
        KeyManager { keys: ClassifiedMap::new(), rotation_interval_secs }
    }

    /// An empty manager with the given rotation period.
    pub fn with_rotation(rotation_interval_secs: u64) -> (r: Self)
        ensures
            r@ == Map::<Seq<char>, Seq<u8>>::empty(),
            r.spec_rotation_interval_secs() == rotation_interval_secs,
    {
        KeyManager::new(rotation_interval_secs)
    }

    /// An empty manager that is never rotated.
    pub fn without_rotation() -> (r: Self)
        ensures
            r@ == Map::<Seq<char>, Seq<u8>>::empty(),
            r.spec_rotation_interval_secs() == 0,
    {
        KeyManager::new(0)
    }

    /// Accept key material under an identifier, after checking it
    /// against the declared length.
    ///
    /// Fails with the key-length error exactly when the declared length
    /// is zero or the material does not have that length; on success the
    /// material is stored (replacing, and so zeroizing, any previous key
    /// under the identifier).
    pub fn accept_key(&mut self, id: &str, length: usize, key: Vec<u8>) -> (r: Result<
        (),
        SecureError,
    >)
        ensures
            (length == 0 || key@.len() != length) ==> (r matches Err(
                SecureError::InvalidKeyLength,
            ) && final(self)@ == old(self)@),
            (length != 0 && key@.len() == length) ==> (r is Ok && final(self)@ == old(
                self,
            )@.insert(id@, key@)),
            final(self).spec_rotation_interval_secs() == old(self).spec_rotation_interval_secs(),
    {
        if length == 0 {
            return Err(SecureError::InvalidKeyLength);
        }
        if key.len() != length {
            return Err(SecureError::InvalidKeyLength);
        }
        self.keys.insert(String::from_str(id), key);
        Ok(())
    }

    /// An explicit, auditable copy of the key stored under `id`, if any.
    pub fn get_key(&self, id: &str) -> (r: Option<ClassifiedData>)
        ensures
            (match r {
                Some(d) => self@.contains_key(id@) && d@ == self@[id@],
                None => !self@.contains_key(id@),
            }),
    {
        match self.keys.get(&String::from_str(id)) {
            Some(d) => Some(d.duplicate()),
            None => None,
        }
    }

    /// Remove the key stored under `id`, if any; the removed classified
    /// value zeroizes when dropped.
    pub fn remove_key(&mut self, id: &str) -> (r: Result<(), SecureError>)
        ensures
            r is Ok,
            final(self)@ == old(self)@.remove(id@),
            final(self).spec_rotation_interval_secs() == old(self).spec_rotation_interval_secs(),
    {
        self.keys.remove(&String::from_str(id));
        Ok(())
    }

    /// Compare candidate bytes against the key stored under `id`, in
    /// constant time. Answers nothing when no key is stored, and
    /// otherwise whether the candidate equals the stored material.
    pub fn compare_key(&self, id: &str, other: &[u8]) -> (r: Option<bool>)
        ensures
            (match r {
                Some(b) => self@.contains_key(id@) && b == (self@[id@] == other@),
                None => !self@.contains_key(id@),
            }),
    {
        match self.keys.get(&String::from_str(id)) {
            Some(stored) => Some(ct_bytes_eq(stored.expose().as_slice(), other)),
            None => None,
        }
    }

    /// Rotate every stored key: each entry's material is replaced
    /// wholesale with fresh placeholder material, and the replaced
    /// classified values zeroize when dropped. The key set is unchanged.
    pub fn rotate_keys(&mut self)
        ensures
            final(self)@.dom() == old(self)@.dom(),
            forall|k: Seq<char>|
                old(self)@.contains_key(k) ==> #[trigger] final(self)@[k] == spec_rotated_key(),
            final(self).spec_rotation_interval_secs() == old(self).spec_rotation_interval_secs(),
    {
        let fresh: Vec<u8> = vec![0u8; 32];
        proof {
            assert(fresh@ =~= spec_rotated_key());
        }
        self.keys.set_all_values(&fresh);
    }
}

} // verus!
