//! A builder for [`CryptoPrimitive`] values.

use vstd::prelude::*;
use crate::classified_data::ClassifiedData;
use crate::crypto::crypto_algorithm::CryptoAlgorithm;
use crate::crypto::crypto_primitive::CryptoPrimitive;
use crate::crypto::key_length::KeyLength;
use crate::errors::SecureError;

verus! {

/// Collects an algorithm, a key length and a zeroize flag, then builds a
/// primitive with freshly generated placeholder key material.
pub struct CryptoBuilder {
    pub algorithm: CryptoAlgorithm,
    pub key_length: Option<KeyLength>,
    pub zeroize: bool,
}

impl CryptoBuilder {
    /// Start from the defaults: RSA, no key length chosen, no zeroize.
    pub fn new() -> (r: Self)
        ensures
            r.algorithm is RSA,
            r.key_length is None,
            !r.zeroize,
    {
        CryptoBuilder { algorithm: CryptoAlgorithm::RSA, key_length: None, zeroize: false }
    }

    /// Choose the algorithm.
    pub fn algorithm(self, alg: CryptoAlgorithm) -> (r: Self)
        ensures
            r.algorithm == alg,
            r.key_length == self.key_length,
            r.zeroize == self.zeroize,
    {
        CryptoBuilder { algorithm: alg, ..self }
    }

    /// Choose the key length.
    pub fn key_length(self, len: KeyLength) -> (r: Self)
        ensures
            r.algorithm == self.algorithm,
            r.key_length == Some(len),
            r.zeroize == self.zeroize,
    {
        CryptoBuilder { key_length: Some(len), ..self }
    }

    /// Ask for the key material to be zeroized when the primitive is
    /// dropped.
    pub fn with_zeroize(self) -> (r: Self)
        ensures
            r.algorithm == self.algorithm,
            r.key_length == self.key_length,
            r.zeroize,
    {
        CryptoBuilder { zeroize: true, ..self }
    }

    /// The number of placeholder key bytes generated for each algorithm:
    /// 32 for AES, 256 for RSA and ECDSA.
    pub open spec fn spec_material_len(alg: CryptoAlgorithm) -> int {
        match alg {
            CryptoAlgorithm::AES => 32,
            CryptoAlgorithm::RSA => 256,
            CryptoAlgorithm::ECDSA => 256,
        }
    }

    /// Build the primitive.
    ///
    /// Fails exactly when no key length was chosen; otherwise the result
    /// carries the chosen algorithm, the chosen length, the zeroize flag,
    /// and all-zero placeholder key material of the algorithm's size.
    pub fn build(self) -> (r: Result<CryptoPrimitive, SecureError>)
        ensures
            self.key_length is None ==> (r matches Err(SecureError::PipelineError(m)) && m@
                == "Key length must be specified"@),
            self.key_length matches Some(len) ==> (r matches Ok(p) && p.algorithm
                == self.algorithm && p.key_length == len && p.zeroize == self.zeroize
                && p.key_material@ =~= Seq::new(
                Self::spec_material_len(self.algorithm) as nat,
                |i: int| 0u8,
            )),
    {
        let key_length = match self.key_length {
            Some(len) => len,
            None => {
                return Err(
                    SecureError::PipelineError(String::from_str("Key length must be specified")),
                );
            },
        };

        let key_material: Vec<u8> = match self.algorithm {
            CryptoAlgorithm::AES => vec![0u8; 32],
            CryptoAlgorithm::RSA => vec![0u8; 256],
            CryptoAlgorithm::ECDSA => vec![0u8; 256],
        };

        Ok(
            CryptoPrimitive {
                algorithm: self.algorithm,
                key_length,
                key_material: ClassifiedData::new(key_material),
                zeroize: self.zeroize,
            },
        )
    }
}

} // verus!
