//! The secure service: a pipeline and a key manager behind one facade.

use vstd::prelude::*;
use crate::classified_data::ClassifiedData;
use crate::errors::SecureError;
use crate::key_manager::KeyManager;
use crate::pipelines::Pipeline;
use crate::pipelines::spec_run;

verus! {

/// A service that feeds data through its pipeline and manages keys.
pub struct SecureService {
    pipeline: Pipeline,
    key_manager: KeyManager,
}

impl SecureService {
    /// The service's pipeline stages.
    pub closed spec fn spec_pipeline(&self) -> Pipeline {
        self.pipeline
    }

    /// The service's key map.
    pub closed spec fn spec_keys(&self) -> Map<Seq<char>, Seq<u8>> {
        self.key_manager@
    }

    /// A service over the given pipeline and key manager.
    pub fn new(pipeline: Pipeline, key_manager: KeyManager) -> (r: Self)
        ensures
            r.spec_pipeline() == pipeline,
            r.spec_keys() == key_manager@,
    {
        SecureService { pipeline, key_manager }
    }

    /// Classify the given bytes and run them through the pipeline.
    pub fn handle_data(&mut self, data: Vec<u8>) -> (r: Result<(), SecureError>)
        ensures
            r is Ok <==> spec_run(old(self).spec_pipeline().spec_stages(), data@) is Some,
            final(self).spec_keys() == old(self).spec_keys(),
    {
        let sensitive_data = ClassifiedData::new(data);
        self.pipeline.run(sensitive_data)
    }

    /// Store a key under an identifier, taking its own length as the
    /// declared length; an empty key is refused.
    pub fn add_key(&mut self, id: String, key: Vec<u8>) -> (r: Result<(), SecureError>)
        ensures
            key@.len() == 0 ==> (r matches Err(SecureError::InvalidKeyLength) && final(self).spec_keys() == old(self).spec_keys()),
            key@.len() != 0 ==> (r is Ok && final(self).spec_keys() == old(self).spec_keys().insert(
                id@,
                key@,
            )),
            final(self).spec_pipeline() == old(self).spec_pipeline(),
    {
        let length = key.len();
        self.key_manager.accept_key(id.as_str(), length, key)
    }

    /// An explicit, auditable copy of the key stored under `id`, if any.
    pub fn get_key(&self, id: &str) -> (r: Option<ClassifiedData>)
        ensures
            (match r {
                Some(d) => self.spec_keys().contains_key(id@) && d@ == self.spec_keys()[id@],
                None => !self.spec_keys().contains_key(id@),
            }),
    {
        self.key_manager.get_key(id)
    }

    /// Remove the key stored under `id`, if any.
    pub fn delete_key(&mut self, id: &str) -> (r: Result<(), SecureError>)
        ensures
            r is Ok,
            final(self).spec_keys() == old(self).spec_keys().remove(id@),
            final(self).spec_pipeline() == old(self).spec_pipeline(),
    {
        self.key_manager.remove_key(id)
    }
}

} // verus!
