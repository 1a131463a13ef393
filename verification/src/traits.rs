//! Shared capability traits and the pipeline data unit.

use vstd::prelude::*;
use crate::classified_data::ClassifiedData;

verus! {

/// Semantic equality for classified values: a boolean answer computed
/// without leaking where the two payloads differ through timing.
pub trait ClassifiedEq {
    fn classified_eq(&self, rhs: &Self) -> bool;
}

/// One unit of pipeline data: a classified payload with optional metadata.
///
/// A frame is exclusively owned by whichever stage currently holds it;
/// ownership moves between stages and is never shared.
pub struct Frame {
    pub data: ClassifiedData,
    pub metadata: Option<String>,
}

impl View for Frame {
    type V = Seq<u8>;

    open spec fn view(&self) -> Seq<u8> {
        self.data@
    }
}

} // verus!
