//! Error taxonomy for the crate.
//!
//! Configuration problems are fatal to pipeline construction; key-length
//! mismatches are fatal to the specific key operation; channel and
//! processing failures surface as stage failures. Every error carries a
//! human-readable message, obtained through the `message` methods below
//! (the types deliberately have no `Display`: rendering is explicit).

use vstd::prelude::*;

verus! {

/// Marker for a key whose length does not match what was required.
#[derive(Debug)]
pub struct InvalidKeyLength;

/// A pipeline setup failure, carrying a description.
#[derive(Debug)]
pub struct PipelineError(pub String);

/// An error identified by a three-byte code with a message.
#[derive(Debug)]
pub struct HexError {
    pub code: [u8; 3],
    pub message: String,
}

/// Error variants that wrap dedicated payload types.
#[derive(Debug)]
pub enum SecureErrors {
    InvalidKeyLength(InvalidKeyLength),
    PipelineError(String),
    HexCodeError(HexError),
}

/// The common error of the secure-service surface.
#[derive(Debug)]
pub enum SecureError {
    InvalidKeyLength,
    PipelineError(String),
    HexCodeError(HexError),
}

impl SecureError {
    /// The rendered message of this error, one fixed form per variant.
    pub fn message(&self) -> (r: String)
        ensures
            (match self {
                SecureError::InvalidKeyLength => r@ == "Invalid key length specified"@,
                SecureError::PipelineError(m) => r@ == "Pipeline setup failed: "@ + m@,
                SecureError::HexCodeError(_) => r@ == "Hex code error"@,
            }),
    {
        match self {
            SecureError::InvalidKeyLength => String::from_str("Invalid key length specified"),
            SecureError::PipelineError(m) => String::from_str("Pipeline setup failed: ").concat(
                m.as_str(),
            ),
            SecureError::HexCodeError(_) => String::from_str("Hex code error"),
        }
    }
}

/// Failures of the concurrent workers.
#[derive(Debug)]
pub enum ConcurrencyError {
    InvalidKeyLength,
    PipelineError(String),
}

impl ConcurrencyError {
    /// The rendered message of this error, one fixed form per variant.
    pub fn message(&self) -> (r: String)
        ensures
            (match self {
                ConcurrencyError::InvalidKeyLength => r@ == "Invalid key length specified"@,
                ConcurrencyError::PipelineError(m) => r@ == "Pipeline setup failed: "@ + m@,
            }),
    {
        match self {
            ConcurrencyError::InvalidKeyLength => String::from_str("Invalid key length specified"),
            ConcurrencyError::PipelineError(m) => String::from_str(
                "Pipeline setup failed: ",
            ).concat(m.as_str()),
        }
    }
}

/// Failures of the cryptographic primitives.
#[derive(Debug)]
pub enum CryptoError {
    InvalidKeyLength,
    CryptoError(String),
    AESDecryptionError,
    RSADecryptionError,
    DecryptionError,
    AESEncryptionError,
    RSAEncryptionError,
    EncryptionError,
}

impl CryptoError {
    /// The rendered message of this error, one fixed form per variant.
    pub fn message(&self) -> (r: String)
        ensures
            (match self {
                CryptoError::InvalidKeyLength => r@ == "Invalid key length"@,
                CryptoError::CryptoError(m) => r@ == "Cryptographic error: "@ + m@,
                CryptoError::AESDecryptionError => r@ == "AES Decryption failed"@,
                CryptoError::RSADecryptionError => r@ == "RSA Decryption failed"@,
                CryptoError::DecryptionError => r@ == "Decryption failed"@,
                CryptoError::AESEncryptionError => r@ == "AES Decryption failed"@,
                CryptoError::RSAEncryptionError => r@ == "RSA Decryption failed"@,
                CryptoError::EncryptionError => r@ == "Decryption failed"@,
            }),
    {
        match self {
            CryptoError::InvalidKeyLength => String::from_str("Invalid key length"),
            CryptoError::CryptoError(m) => String::from_str("Cryptographic error: ").concat(
                m.as_str(),
            ),
            CryptoError::AESDecryptionError => String::from_str("AES Decryption failed"),
            CryptoError::RSADecryptionError => String::from_str("RSA Decryption failed"),
            CryptoError::DecryptionError => String::from_str("Decryption failed"),
            CryptoError::AESEncryptionError => String::from_str("AES Decryption failed"),
            CryptoError::RSAEncryptionError => String::from_str("RSA Decryption failed"),
            CryptoError::EncryptionError => String::from_str("Decryption failed"),
        }
    }
}

/// General classification of failures across the crate's surface.
///
/// Input/output and deserialization failures are produced by callers
/// outside this crate and are carried here as rendered messages.
#[derive(Debug)]
pub enum ClassifiedError {
    ConfigError(String),
    HexCodeError { code: u32, message: String },
    CryptographicError(String),
    SecurityError(String),
    ConcurrencyError(String),
    PipelineError(String),
    CryptoError(String),
}

/// A master error that wraps the other taxonomies.
#[derive(Debug)]
pub enum ClassifiedErrorMaster {
    SecureError(SecureError),
    CryptoError(CryptoError),
    Other(ClassifiedError),
}

impl Default for ClassifiedErrorMaster {
    fn default() -> (r: Self)
        ensures
            r is SecureError && r->SecureError_0 is InvalidKeyLength,
    {
        ClassifiedErrorMaster::SecureError(SecureError::InvalidKeyLength)
    }
}

impl From<InvalidKeyLength> for SecureError {
    /// Binds the key-length marker to its three-byte error code.
    fn from(err: InvalidKeyLength) -> (r: Self)
        ensures
            r matches SecureError::HexCodeError(h) && h.code == [0x00u8, 0x10u8, 0x01u8]
                && h.message@ == "InvalidKeyLength"@,
    {
        SecureError::HexCodeError(
            HexError {
                code: [0x00u8, 0x10u8, 0x01u8],
                message: String::from_str("InvalidKeyLength"),
            },
        )
    }
}

impl vstd::std_specs::convert::FromSpecImpl<InvalidKeyLength> for SecureError {
    open spec fn obeys_from_spec() -> bool {
        false
    }

    open spec fn from_spec(err: InvalidKeyLength) -> Self {
        arbitrary()
    }
}

impl From<CryptoError> for SecureError {
    fn from(err: CryptoError) -> (r: Self) {
        SecureError::InvalidKeyLength
    }
}

impl vstd::std_specs::convert::FromSpecImpl<CryptoError> for SecureError {
    open spec fn obeys_from_spec() -> bool {
        true
    }

    open spec fn from_spec(err: CryptoError) -> Self {
        SecureError::InvalidKeyLength
    }
}

} // verus!
