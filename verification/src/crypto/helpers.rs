//! Parsing of algorithm identifiers from configuration strings.

use vstd::prelude::*;
use crate::crypto::crypto_algorithm::CryptoAlgorithm;
use crate::crypto::key_length::KeyLength;
use crate::errors::SecureError;

verus! {

/// Whether `s` spells out the same characters as `lit`.
pub(crate) fn string_is(s: &String, lit: &str) -> (r: bool)
    ensures
        r == (s@ == lit@),
{
    let t = String::from_str(lit);
    *s == t
}

/// Parse an optional algorithm string from a stage configuration.
///
/// Exactly the strings "AES-256", "RSA" and "ECDSA" are accepted; any
/// other string, and an absent value, is rejected with a pipeline error.
pub fn parse_algorithm(alg: &Option<String>) -> (r: Result<CryptoAlgorithm, SecureError>)
    ensures
        (match alg {
            Some(s) => {
                if s@ == "AES-256"@ {
                    r matches Ok(a) && a is AES
                } else if s@ == "RSA"@ {
                    r matches Ok(a) && a is RSA
                } else if s@ == "ECDSA"@ {
                    r matches Ok(a) && a is ECDSA
                } else {
                    r matches Err(SecureError::PipelineError(m)) && m@ == "Unsupported algorithm"@
                }
            },
            None => r matches Err(SecureError::PipelineError(m)) && m@
                == "Unsupported algorithm"@,
        }),
{
    match alg {
        Some(s) => {
            if string_is(s, "AES-256") {
                Ok(CryptoAlgorithm::AES)
            } else if string_is(s, "RSA") {
                Ok(CryptoAlgorithm::RSA)
            } else if string_is(s, "ECDSA") {
                Ok(CryptoAlgorithm::ECDSA)
            } else {
                Err(SecureError::PipelineError(String::from_str("Unsupported algorithm")))
            }
        },
        None => Err(SecureError::PipelineError(String::from_str("Unsupported algorithm"))),
    }
}

/// The key length each accepted algorithm string calls for.
///
/// "AES-256" and "ECDSA" use 256-bit keys, "RSA" a 2048-bit key; any
/// other string, and an absent value, is rejected with a pipeline error.
pub fn parse_key_length(alg: &Option<String>) -> (r: Result<KeyLength, SecureError>)
    ensures
        (match alg {
            Some(s) => {
                if s@ == "AES-256"@ {
                    r matches Ok(l) && l is Bits256
                } else if s@ == "RSA"@ {
                    r matches Ok(l) && l is Bits2048
                } else if s@ == "ECDSA"@ {
                    r matches Ok(l) && l is Bits256
                } else {
                    r matches Err(SecureError::PipelineError(m)) && m@
                        == "Unsupported algorithm for key length"@
                }
            },
            None => r matches Err(SecureError::PipelineError(m)) && m@
                == "Unsupported algorithm for key length"@,
        }),
{
    match alg {
        Some(s) => {
            if string_is(s, "AES-256") {
                Ok(KeyLength::Bits256)
            } else if string_is(s, "RSA") {
                Ok(KeyLength::Bits2048)
            } else if string_is(s, "ECDSA") {
                Ok(KeyLength::Bits256)
            } else {
                Err(
                    SecureError::PipelineError(
                        String::from_str("Unsupported algorithm for key length"),
                    ),
                )
            }
        },
        None => Err(
            SecureError::PipelineError(String::from_str("Unsupported algorithm for key length")),
        ),
    }
}

} // verus!
