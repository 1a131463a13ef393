//! A classified wrapper that holds its byte string inline.
//!
//! Unlike [`crate::classified_data::ClassifiedData`], which keeps its
//! payload behind an opaque heap cell, this wrapper owns a plain buffer
//! and offers scoped mutable access. Its destructor scrubs the buffer,
//! so the sensitive bytes do not outlive the wrapper.

use vstd::prelude::*;
use zeroize::Zeroize;

verus! {

/// Relies on `zeroize::Zeroize` for `Vec<u8>`: every element and the
/// spare capacity are overwritten with zeros, then the vector is
/// cleared, so nothing of the old contents remains reachable.
#[verifier::external_body]
fn zeroize_vec(v: &mut Vec<u8>)
    ensures
        final(v)@ == Seq::<u8>::empty(),
    opens_invariants none
    no_unwind
{
    v.zeroize();
}

/// A sensitive byte string held inline, scrubbed when destroyed.
pub struct SizedClassifiedData {
    data: Vec<u8>,
}

impl View for SizedClassifiedData {
    type V = Seq<u8>;

    closed spec fn view(&self) -> Seq<u8> {
        self.data@
    }
}

impl SizedClassifiedData {
    /// Wrap the given bytes, taking ownership of them.
    pub fn new(data: Vec<u8>) -> (r: Self)
        ensures
            r@ == data@,
    {
        SizedClassifiedData { data }
    }

    /// Borrow a read-only view of the inner bytes.
    pub fn expose(&self) -> (r: &Vec<u8>)
        ensures
            r@ == self@,
    {
        &self.data
    }

    /// Borrow a mutable view of the inner bytes for scoped use; the
    /// borrow cannot outlive the wrapper, so the scrubbing contract
    /// still covers whatever the caller writes through it.
    pub fn expose_mut(&mut self) -> (r: &mut Vec<u8>)
        ensures
            r@ == old(self)@,
            final(self)@ == final(r)@,
    {
        &mut self.data
    }

    /// Take the inner bytes out, consuming the wrapper. The returned
    /// buffer is the caller's to protect from here on; the emptied
    /// wrapper has nothing left to scrub.
    pub fn into_data(self) -> (r: Vec<u8>)
        ensures
            r@ == self@,
    {
        let mut this = self;
        let mut taken: Vec<u8> = Vec::new();
        core::mem::swap(&mut taken, &mut this.data);
        taken
    }

    /// Overwrite the inner bytes with zeros and discard them, leaving
    /// the wrapper empty. This is the scrubbing step the destructor
    /// performs; it is public so callers can scrub early.
    pub fn scrub(&mut self)
        ensures
            final(self)@ == Seq::<u8>::empty(),
    {
        zeroize_vec(&mut self.data);
    }

    /// The redacted description of this value: the same fixed sentinel
    /// for every payload.
    pub fn redacted_debug(&self) -> (r: String)
        ensures
            r@ == "SizedClassifiedData(<REDACTED>)"@,
    {
        String::from_str("SizedClassifiedData(<REDACTED>)")
    }
}

impl Drop for SizedClassifiedData {
    /// Scrub the buffer before the memory is released.
    fn drop(&mut self)
        opens_invariants none
        no_unwind
    {
        zeroize_vec(&mut self.data);
    }
}

} // verus!
