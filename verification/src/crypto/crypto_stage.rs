//! A pipeline stage that encrypts its input with a [`CryptoPrimitive`].

use vstd::prelude::*;
use crate::classified_data::ClassifiedData;
use crate::crypto::crypto_primitive::CryptoPrimitive;
use crate::errors::SecureError;

verus! {

/// Wraps a primitive as a processing stage.
pub struct CryptoStage {
    pub crypto: CryptoPrimitive,
}

impl CryptoStage {
    /// Wrap the given primitive.
    pub fn new(crypto: CryptoPrimitive) -> (r: Self)
        ensures
            r.crypto == crypto,
    {
        CryptoStage { crypto }
    }

    /// Encrypt one classified buffer and return the result as a fresh
    /// classified buffer.
    ///
    /// ECDSA primitives cannot encrypt at all, so they are excluded up
    /// front rather than allowed to fail on every call.
    pub fn process(&self, data: ClassifiedData) -> (r: Result<ClassifiedData, SecureError>)
        requires
            !(self.crypto.algorithm is ECDSA),
        ensures
            r matches Ok(d) && d@ == data@,
    {
        let encrypted = match self.crypto.encrypt(data.expose().as_slice()) {
            Ok(v) => v,
            Err(_) => {
                // Unreachable: every algorithm this stage admits encrypts.
                proof {
                    assert(false);
                }
                Vec::new()
            },
        };
        Ok(ClassifiedData::new(encrypted))
    }
}

} // verus!
