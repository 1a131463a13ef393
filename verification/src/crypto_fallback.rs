//! Falling back from a strong crypto operation to a local one.
//!
//! A host runtime runs the strong operation (and, in its racing
//! variants, the fallback in parallel) and hands the outcome here; the
//! choice of what the caller receives is decided and proved in one
//! place.

use vstd::prelude::*;
use crate::classified_data::ClassifiedData;
use crate::errors::SecureError;

verus! {

/// Resolve a strong crypto operation's outcome against a fallback
/// value: the strong result when it succeeded, the fallback otherwise.
/// The caller always ends up with a usable classified value.
pub fn crypto_op_with_fallback(
    strong: Result<ClassifiedData, SecureError>,
    fallback: ClassifiedData,
) -> (r: Result<ClassifiedData, SecureError>)
    ensures
        r matches Ok(d) && d@ == (match strong {
            Ok(s) => s@,
            Err(_) => fallback@,
        }),
{
    match strong {
        Ok(data) => Ok(data),
        Err(_) => Ok(fallback),
    }
}

} // verus!
