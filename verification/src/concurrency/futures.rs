//! Future-style processing with a concurrency budget and a deadline.
//!
//! The handler validates and transforms one classified buffer at a
//! time. Its concurrency limit sizes the permit pool a host runtime
//! acquires from before calling in, and its timeout bounds how long the
//! runtime lets a call run; the processing decision itself is here.

use vstd::prelude::*;
use crate::classified_data::ClassifiedData;
use crate::errors::SecureError;

verus! {

/// The default deadline, in seconds, for one processing call.
pub open spec fn spec_default_timeout_secs() -> u64 {
    10
}

/// A processing stage with a bounded in-flight budget.
pub struct FutureHandler {
    concurrency_limit: usize,
    timeout_secs: u64,
}

impl FutureHandler {
    /// How many calls may be in flight at once.
    pub closed spec fn spec_concurrency_limit(&self) -> usize {
        self.concurrency_limit
    }

    /// The deadline, in seconds, for one call.
    pub closed spec fn spec_timeout_secs(&self) -> u64 {
        self.timeout_secs
    }

    /// A handler allowing `concurrency_limit` calls in flight, each
    /// under the default deadline.
    pub fn new(concurrency_limit: usize) -> (r: Self)
        ensures
            r.spec_concurrency_limit() == concurrency_limit,
            r.spec_timeout_secs() == spec_default_timeout_secs(),
    {
        FutureHandler { concurrency_limit, timeout_secs: 10 }
    }

    /// Process one classified buffer: an empty buffer is rejected with
    /// a pipeline error, any other passes through unchanged.
    pub fn process_data(&self, data: ClassifiedData) -> (r: Result<ClassifiedData, SecureError>)
        ensures
            data@.len() == 0 ==> (r matches Err(SecureError::PipelineError(m)) && m@
                == "Empty data provided"@),
            data@.len() != 0 ==> (r matches Ok(d) && d@ == data@),
    {
        if data.is_empty() {
            return Err(SecureError::PipelineError(String::from_str("Empty data provided")));
        }
        Ok(data)
    }

    /// Execute one processing call.
    ///
    /// The decision is exactly [`FutureHandler::process_data`]; a host
    /// runtime wraps this call in a permit acquired from a pool of
    /// [`FutureHandler::spec_concurrency_limit`] and a deadline of
    /// [`FutureHandler::spec_timeout_secs`] seconds, and reports its own
    /// errors when the pool is closed or the deadline expires.
    pub fn execute_future(&self, data: ClassifiedData) -> (r: Result<ClassifiedData, SecureError>)
        ensures
            data@.len() == 0 ==> (r matches Err(SecureError::PipelineError(m)) && m@
                == "Empty data provided"@),
            data@.len() != 0 ==> (r matches Ok(d) && d@ == data@),
    {
        self.process_data(data)
    }
}

} // verus!
