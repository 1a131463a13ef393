//! Cryptographic primitives and their configuration surface.
//!
//! The transforms themselves are placeholders: the value of this module
//! is the key-length discipline around them, which is stated and proved
//! exactly.

pub mod crypto_algorithm;
pub mod crypto_builder;
pub mod crypto_primitive;
pub mod crypto_stage;
pub mod helpers;
pub mod key_length;
