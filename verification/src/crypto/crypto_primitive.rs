//! The cryptographic primitive: an algorithm with validated key material.
//!
//! The transforms are deliberate placeholders (they copy their input);
//! the contract proved here is the key-length discipline and the exact
//! success and failure behaviour of each operation.

use vstd::prelude::*;
use crate::classified_data::ClassifiedData;
use crate::crypto::crypto_algorithm::CryptoAlgorithm;
use crate::crypto::key_length::KeyLength;
use crate::errors::CryptoError;

verus! {

/// The key length each algorithm requires.
pub open spec fn spec_required_key_length(alg: CryptoAlgorithm) -> KeyLength {
    match alg {
        CryptoAlgorithm::AES => KeyLength::Bits256,
        CryptoAlgorithm::RSA => KeyLength::Bits2048,
        CryptoAlgorithm::ECDSA => KeyLength::Bits256,
    }
}

/// An algorithm together with key material of the matching length.
///
/// The key material lives in a classified value: it is zeroized when the
/// primitive is destroyed or replaced, and never printed.
pub struct CryptoPrimitive {
    pub algorithm: CryptoAlgorithm,
    pub key_length: KeyLength,
    pub key_material: ClassifiedData,
    pub zeroize: bool,
}

impl CryptoPrimitive {
    /// The primitive is well formed when its recorded key length is the
    /// one its algorithm requires and the material has that many bytes.
    pub open spec fn wf(&self) -> bool {
        &&& self.key_length == spec_required_key_length(self.algorithm)
        &&& self.key_material@.len() == self.key_length.spec_as_bytes()
    }

    /// Build a primitive from an algorithm and key material.
    ///
    /// Fails exactly when the material's length is not the length the
    /// algorithm requires: 32 bytes for AES and ECDSA, 256 bytes for RSA.
    pub fn new(algorithm: &CryptoAlgorithm, key_material: Vec<u8>, zeroize: bool) -> (r: Result<
        Self,
        CryptoError,
    >)
        ensures
            key_material@.len() == spec_required_key_length(*algorithm).spec_as_bytes() ==> (
            r matches Ok(p) && p.algorithm == *algorithm && p.key_length
                == spec_required_key_length(*algorithm) && p.key_material@ == key_material@
                && p.zeroize == zeroize && p.wf()),
            key_material@.len() != spec_required_key_length(*algorithm).spec_as_bytes() ==> (
            r matches Err(CryptoError::CryptoError(m)) && m@ == "Key length mismatch"@),
    {
        let key_length = match algorithm {
            CryptoAlgorithm::AES => KeyLength::Bits256,
            CryptoAlgorithm::RSA => KeyLength::Bits2048,
            CryptoAlgorithm::ECDSA => KeyLength::Bits256,
        };

        if key_material.len() != key_length.as_bytes() {
            return Err(CryptoError::CryptoError(String::from_str("Key length mismatch")));
        }

        Ok(
            CryptoPrimitive {
                algorithm: *algorithm,
                key_length,
                key_material: ClassifiedData::new(key_material),
                zeroize,
            },
        )
    }

    /// Encrypt `data` under this primitive's algorithm.
    ///
    /// AES and RSA succeed and (as placeholders) return a copy of the
    /// input; ECDSA is a signature algorithm and always fails.
    pub fn encrypt(&self, data: &[u8]) -> (r: Result<Vec<u8>, CryptoError>)
        ensures
            !(self.algorithm is ECDSA) ==> (r matches Ok(v) && v@ == data@),
            self.algorithm is ECDSA ==> (r matches Err(CryptoError::CryptoError(m)) && m@
                == "ECDSA is for signing, not encryption"@),
    {
        match self.algorithm {
            CryptoAlgorithm::AES => self.aes_encrypt(data),
            CryptoAlgorithm::RSA => self.rsa_encrypt(data),
            CryptoAlgorithm::ECDSA => Err(
                CryptoError::CryptoError(String::from_str("ECDSA is for signing, not encryption")),
            ),
        }
    }

    /// Decrypt `data` under this primitive's algorithm.
    ///
    /// AES and RSA succeed and (as placeholders) return a copy of the
    /// input; ECDSA is a verification algorithm and always fails.
    pub fn decrypt(&self, data: &[u8]) -> (r: Result<Vec<u8>, CryptoError>)
        ensures
            !(self.algorithm is ECDSA) ==> (r matches Ok(v) && v@ == data@),
            self.algorithm is ECDSA ==> (r matches Err(CryptoError::CryptoError(m)) && m@
                == "ECDSA is for verification, not decryption"@),
    {
        match self.algorithm {
            CryptoAlgorithm::AES => self.aes_decrypt(data),
            CryptoAlgorithm::RSA => self.rsa_decrypt(data),
            CryptoAlgorithm::ECDSA => Err(
                CryptoError::CryptoError(
                    String::from_str("ECDSA is for verification, not decryption"),
                ),
            ),
        }
    }

    fn aes_encrypt(&self, data: &[u8]) -> (r: Result<Vec<u8>, CryptoError>)
        ensures
            r matches Ok(v) && v@ == data@,
    {
        Ok(vstd::slice::slice_to_vec(data))
    }

    fn aes_decrypt(&self, data: &[u8]) -> (r: Result<Vec<u8>, CryptoError>)
        ensures
            r matches Ok(v) && v@ == data@,
    {
        self.aes_encrypt(data)
    }

    fn rsa_encrypt(&self, data: &[u8]) -> (r: Result<Vec<u8>, CryptoError>)
        ensures
            r matches Ok(v) && v@ == data@,
    {
        Ok(vstd::slice::slice_to_vec(data))
    }

    fn rsa_decrypt(&self, data: &[u8]) -> (r: Result<Vec<u8>, CryptoError>)
        ensures
            r matches Ok(v) && v@ == data@,
    {
        Ok(vstd::slice::slice_to_vec(data))
    }
}

} // verus!
