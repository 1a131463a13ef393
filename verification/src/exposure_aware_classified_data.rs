//! A classified wrapper that counts and records every exposure.
//!
//! Each wrapper carries a monotonic exposure counter and an audit log of
//! purpose-tagged exposure records. The counter only grows and is never
//! reset; test code should therefore compare deltas, not absolute
//! values. (A process-wide counter would need global mutable state,
//! which this crate does not keep; the caller that shares one wrapper
//! across workers shares its counter with it.)

use vstd::prelude::*;
use crate::classified_data::ClassifiedData;

verus! {

/// Why a classified value was exposed.
#[derive(Debug, Clone, Copy, PartialEq, Eq, Structural)]
pub enum ExposurePurpose {
    Signing,
    Decryption,
    KeyWrapping,
    Audit,
}

/// One audit record: the exposure counter at the time of the exposure,
/// and the purpose the caller declared.
#[derive(Debug, Clone, Copy, PartialEq, Eq, Structural)]
pub struct AuditRecord {
    pub counter: u64,
    pub purpose: ExposurePurpose,
}

/// A classified byte string whose exposures are counted and logged.
pub struct ExposureAwareClassifiedData {
    data: ClassifiedData,
    exposures: u64,
    audit_log: Vec<AuditRecord>,
}

impl View for ExposureAwareClassifiedData {
    type V = Seq<u8>;

    closed spec fn view(&self) -> Seq<u8> {
        self.data@
    }
}

impl ExposureAwareClassifiedData {
    /// How often this value has been exposed.
    pub closed spec fn spec_exposure_count(&self) -> u64 {
        self.exposures
    }

    /// The audit records emitted so far, oldest first.
    pub closed spec fn spec_audit_log(&self) -> Seq<AuditRecord> {
        self.audit_log@
    }

    /// Wrap the given bytes; no exposures have happened yet.
    pub fn new(data: Vec<u8>) -> (r: Self)
        ensures
            r@ == data@,
            r.spec_exposure_count() == 0,
            r.spec_audit_log() == Seq::<AuditRecord>::empty(),
    {
        ExposureAwareClassifiedData {
            data: ClassifiedData::new(data),
            exposures: 0,
            audit_log: Vec::new(),
        }
    }

    /// Expose the value: count the event and hand back an explicit,
    /// auditable copy of the bytes. The stored value is unchanged.
    pub fn expose(&mut self) -> (r: Vec<u8>)
        requires
            old(self).spec_exposure_count() < u64::MAX,
        ensures
            r@ == old(self)@,
            final(self)@ == old(self)@,
            final(self).spec_exposure_count() == old(self).spec_exposure_count() + 1,
            final(self).spec_audit_log() == old(self).spec_audit_log(),
    {
        self.exposures = self.exposures + 1;
        self.data.expose().clone()
    }

    /// Expose the value for a declared purpose: count the event, append
    /// an audit record tagged with that purpose, and hand back an
    /// explicit, auditable copy of the bytes.
    pub fn expose_for(&mut self, purpose: ExposurePurpose) -> (r: Vec<u8>)
        requires
            old(self).spec_exposure_count() < u64::MAX,
        ensures
            r@ == old(self)@,
            final(self)@ == old(self)@,
            final(self).spec_exposure_count() == old(self).spec_exposure_count() + 1,
            final(self).spec_audit_log() == old(self).spec_audit_log().push(
                AuditRecord { counter: old(self).spec_exposure_count(), purpose },
            ),
    {
        let record = AuditRecord { counter: self.exposures, purpose };
        self.exposures = self.exposures + 1;
        self.audit_log.push(record);
        self.data.expose().clone()
    }

    /// The current exposure count.
    pub fn exposure_count(&self) -> (r: u64)
        ensures
            r == self.spec_exposure_count(),
    {
        self.exposures
    }

    /// The audit records emitted so far, oldest first.
    pub fn audit_log(&self) -> (r: &Vec<AuditRecord>)
        ensures
            r@ == self.spec_audit_log(),
    {
        &self.audit_log
    }

    /// Apply `f` to a private copy of the inner bytes and discard the
    /// result, leaving the original untouched. Not counted as an
    /// exposure: the bytes never reach the caller.
    pub fn update<F: FnOnce(Vec<u8>) -> Vec<u8>>(&self, f: F)
        requires
            forall|v: Vec<u8>| v@ == self@ ==> call_requires(f, (v,)),
    {
        let copy = self.data.expose().clone();
        let _ = f(copy);
    }

    /// An explicit, auditable full copy of the bytes, with a fresh
    /// exposure history: the copy starts at count zero.
    pub fn duplicate(&self) -> (r: Self)
        ensures
            r@ == self@,
            r.spec_exposure_count() == 0,
            r.spec_audit_log() == Seq::<AuditRecord>::empty(),
    {
        ExposureAwareClassifiedData {
            data: self.data.duplicate(),
            exposures: 0,
            audit_log: Vec::new(),
        }
    }

    /// The redacted description of this value: the same fixed sentinel
    /// for every payload.
    pub fn redacted_debug(&self) -> (r: String)
        ensures
            r@ == "ExposureAwareClassifiedData(<REDACTED>)"@,
    {
        String::from_str("ExposureAwareClassifiedData(<REDACTED>)")
    }

    /// Constant-time equality of the two payloads, not counted as an
    /// exposure: true exactly when the byte strings are equal.
    pub fn ct_eq(&self, other: &Self) -> (r: bool)
        ensures
            r == (self@ == other@),
    {
        self.data.ct_eq(&other.data)
    }
}

} // verus!
