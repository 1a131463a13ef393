//! A secure wrapper for sensitive byte strings.
//!
//! `ClassifiedData` owns one sensitive byte sequence. The backing memory
//! is held in a `secrecy::SecretBox`, which overwrites it with zeros
//! before it is released, on every exit path. Access goes through
//! explicit methods: a borrowed view (`expose`), a redacted description
//! (`redacted_debug`), and constant-time comparison (`ct_eq`). Copies are
//! never implicit: `duplicate` is the one, auditable way to copy.

use vstd::prelude::*;
use secrecy::ExposeSecret;
use subtle::ConstantTimeEq;
use crate::traits::ClassifiedEq;

verus! {

/// A heap cell for sensitive bytes, backed by `secrecy::SecretBox`.
///
/// The verifier does not look inside this struct; its contents are
/// reachable for specification purposes only through `secret_bytes`, and
/// at run time only through the two functions below.
#[verifier::external_body]
pub struct SecretBytes {
    inner: secrecy::SecretBox<Vec<u8>>,
}

/// The bytes held inside a `SecretBytes` cell.
///
/// `secrecy::SecretBox::new` stores exactly the boxed value and
/// `expose_secret` returns a reference to it; this function names those
/// contents so that contracts can speak of them.
pub uninterp spec fn secret_bytes(b: SecretBytes) -> Seq<u8>;

/// Relies on `secrecy::SecretBox::new`, which stores exactly the boxed
/// value, and on its `Drop`, which zeroizes the stored bytes before the
/// memory is released.
#[verifier::external_body]
fn seal_bytes(data: Vec<u8>) -> (r: SecretBytes)
    ensures
        secret_bytes(r) == data@,
{
    SecretBytes { inner: secrecy::SecretBox::new(Box::new(data)) }
}

/// Relies on `secrecy::ExposeSecret::expose_secret`, which returns a
/// reference to the stored value.
#[verifier::external_body]
fn peek_bytes(b: &SecretBytes) -> (r: &Vec<u8>)
    ensures
        r@ == secret_bytes(*b),
{
    b.inner.expose_secret()
}

/// Relies on subtle's constant-time slice comparison: the result is true
/// exactly when the two byte strings are equal, and the running time does
/// not depend on where they first differ; a length mismatch answers false
/// without reading the contents.
#[verifier::external_body]
pub(crate) fn ct_bytes_eq(a: &[u8], b: &[u8]) -> (r: bool)
    ensures
        r == (a@ == b@),
{
    a.ct_eq(b).into()
}

/// A sensitive byte string whose backing memory is zeroized when the
/// value is destroyed, and whose contents are only reachable through
/// explicit, auditable calls.
pub struct ClassifiedData {
    data: SecretBytes,
}

impl View for ClassifiedData {
    type V = Seq<u8>;

    closed spec fn view(&self) -> Seq<u8> {
        secret_bytes(self.data)
    }
}

impl ClassifiedData {
    /// Wrap the given bytes, taking ownership of them.
    pub fn new(data: Vec<u8>) -> (r: Self)
        ensures
            r@ == data@,
    {
        ClassifiedData { data: seal_bytes(data) }
    }

    /// Borrow a read-only view of the inner bytes.
    ///
    /// Use with care: the view must not be retained beyond the call that
    /// produced it, and must not be handed to logging or formatting.
    pub fn expose(&self) -> (r: &Vec<u8>)
        ensures
            r@ == self@,
    {
        peek_bytes(&self.data)
    }

    /// Apply `f` to a private copy of the inner bytes and discard the
    /// result, leaving the original untouched. This gives callers a way
    /// to run a transformation (hashing, masking) without mutating or
    /// exposing the stored value.
    pub fn update<F: FnOnce(Vec<u8>) -> Vec<u8>>(&self, f: F)
        requires
            forall|v: Vec<u8>| v@ == self@ ==> call_requires(f, (v,)),
    {
        let copy = self.expose().clone();
        let _ = f(copy);
    }

    /// Apply `f` to the stored bytes through a private view and store
    /// the result, without ever handing a raw reference out: the only
    /// value that leaves this call is the wrapper itself, still sealed.
    /// The bytes `f` worked on are re-sealed; the replaced backing
    /// memory is zeroized when released.
    pub fn scoped_mutate<F: FnOnce(Vec<u8>) -> Vec<u8>>(&mut self, f: F)
        requires
            forall|v: Vec<u8>| v@ == old(self)@ ==> call_requires(f, (v,)),
        ensures
            exists|v0: Vec<u8>, v1: Vec<u8>|
                v0@ == old(self)@ && #[trigger] call_ensures(f, (v0,), v1) && final(self)@ == v1@,
    {
        let view = self.expose().clone();
        let mutated = f(view);
        self.data = seal_bytes(mutated);
    }

    /// Whether the inner byte string is empty.
    pub fn is_empty(&self) -> (r: bool)
        ensures
            r == (self@.len() == 0),
    {
        self.expose().len() == 0
    }

    /// An explicit, auditable full copy: fresh backing memory, same
    /// contents, same scrubbing contract. There is deliberately no
    /// implicit `Clone`.
    pub fn duplicate(&self) -> (r: Self)
        ensures
            r@ == self@,
    {
        ClassifiedData::new(self.expose().clone())
    }

    /// The redacted description of this value: the same fixed sentinel
    /// for every payload, so nothing about the contents can leak through
    /// a log line.
    pub fn redacted_debug(&self) -> (r: String)
        ensures
            r@ == "ClassifiedData(<redacted>)"@,
    {
        String::from_str("ClassifiedData(<redacted>)")
    }

    /// Constant-time equality of the two payloads: true exactly when the
    /// byte strings are equal, false whenever they differ, including when
    /// their lengths differ.
    pub fn ct_eq(&self, other: &Self) -> (r: bool)
        ensures
            r == (self@ == other@),
            self@ == other@ ==> r,
            self@ != other@ ==> !r,
    {
        ct_bytes_eq(self.expose().as_slice(), other.expose().as_slice())
    }
}

impl ClassifiedEq for ClassifiedData {
    /// A boolean wrapper over the constant-time comparison.
    fn classified_eq(&self, rhs: &Self) -> (r: bool)
        ensures
            r == (self@ == rhs@),
    {
        self.ct_eq(rhs)
    }
}

} // verus!
