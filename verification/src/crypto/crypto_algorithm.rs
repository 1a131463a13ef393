//! The algorithms a pipeline stage can be configured with.

use vstd::prelude::*;

verus! {

/// A cryptographic algorithm identifier.
#[derive(Debug, Clone, Copy, PartialEq, Eq, Structural)]
pub enum CryptoAlgorithm {
    RSA,
    ECDSA,
    AES,
}

} // verus!
