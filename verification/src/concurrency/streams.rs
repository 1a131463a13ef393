//! Stream processing with bounded retries and exact accounting.
//!
//! The handler consumes a drained sequence of fallible classified
//! items. An item the stream itself failed to produce is counted as a
//! stream-level failure and skipped without retry; a produced item is
//! processed with up to `max_retries` additional attempts on failure,
//! immediately (no backoff), and counted as one success or one failure.
//! The concurrency limit sizes how many items a host runtime keeps in
//! flight at once; it does not change any of the counts proved here.

use vstd::prelude::*;
use crate::classified_data::ClassifiedData;
use crate::errors::SecureError;

verus! {

/// How many processing attempts one item costs: none for a stream-level
/// failure, one for an item that processes cleanly, and the full
/// `1 + max_retries` for an item that fails every attempt (an empty
/// payload is the one thing the placeholder processor rejects).
pub open spec fn spec_item_attempts(
    item: Result<ClassifiedData, SecureError>,
    max_retries: usize,
) -> int {
    match item {
        Ok(d) => if d@.len() == 0 {
            max_retries + 1
        } else {
            1
        },
        Err(_) => 0,
    }
}

/// Total processing attempts a drained sequence costs.
pub open spec fn spec_total_attempts(
    items: Seq<Result<ClassifiedData, SecureError>>,
    max_retries: usize,
) -> int
    decreases items.len(),
{
    if items.len() == 0 {
        0
    } else {
        spec_item_attempts(items[0], max_retries) + spec_total_attempts(
            items.drop_first(),
            max_retries,
        )
    }
}

/// How many items of the sequence process successfully.
pub open spec fn spec_success_items(items: Seq<Result<ClassifiedData, SecureError>>) -> int
    decreases items.len(),
{
    if items.len() == 0 {
        0
    } else {
        (match items[0] {
            Ok(d) => if d@.len() != 0 {
                1int
            } else {
                0int
            },
            Err(_) => 0int,
        }) + spec_success_items(items.drop_first())
    }
}

/// How many items exhaust their retries and are counted as failures.
pub open spec fn spec_failed_items(items: Seq<Result<ClassifiedData, SecureError>>) -> int
    decreases items.len(),
{
    if items.len() == 0 {
        0
    } else {
        (match items[0] {
            Ok(d) => if d@.len() == 0 {
                1int
            } else {
                0int
            },
            Err(_) => 0int,
        }) + spec_failed_items(items.drop_first())
    }
}

/// How many entries are stream-level failures.
pub open spec fn spec_stream_failures(items: Seq<Result<ClassifiedData, SecureError>>) -> int
    decreases items.len(),
{
    if items.len() == 0 {
        0
    } else {
        (match items[0] {
            Ok(_) => 0int,
            Err(_) => 1int,
        }) + spec_stream_failures(items.drop_first())
    }
}

/// All four counts are nonnegative.
proof fn lemma_counts_nonneg(items: Seq<Result<ClassifiedData, SecureError>>, max_retries: usize)
    ensures
        spec_total_attempts(items, max_retries) >= 0,
        spec_success_items(items) >= 0,
        spec_failed_items(items) >= 0,
        spec_stream_failures(items) >= 0,
    decreases items.len(),
{
    if items.len() > 0 {
        lemma_counts_nonneg(items.drop_first(), max_retries);
    }
}

/// A stream processor with per-item retries and counters.
pub struct StreamHandler {
    concurrency_limit: usize,
    max_retries: usize,
    success_count: u64,
    failure_count: u64,
    stream_failure_count: u64,
    attempts_total: u64,
}

impl StreamHandler {
    /// How many items a host runtime keeps in flight at once.
    pub closed spec fn spec_concurrency_limit(&self) -> usize {
        self.concurrency_limit
    }

    /// How many additional attempts a failing item is given.
    pub closed spec fn spec_max_retries(&self) -> usize {
        self.max_retries
    }

    /// Items processed successfully.
    pub closed spec fn spec_success_count(&self) -> u64 {
        self.success_count
    }

    /// Items that exhausted their retries.
    pub closed spec fn spec_failure_count(&self) -> u64 {
        self.failure_count
    }

    /// Stream-level failures (items the stream never produced).
    pub closed spec fn spec_stream_failure_count(&self) -> u64 {
        self.stream_failure_count
    }

    /// Processing attempts made in total, retries included.
    pub closed spec fn spec_attempts_total(&self) -> u64 {
        self.attempts_total
    }

    /// The configuration is unchanged between two states.
    pub open spec fn same_config(&self, other: &Self) -> bool {
        &&& self.spec_concurrency_limit() == other.spec_concurrency_limit()
        &&& self.spec_max_retries() == other.spec_max_retries()
    }

    /// A fresh handler with all counters at zero.
    pub fn new(concurrency_limit: usize, max_retries: usize) -> (r: Self)
        ensures
            r.spec_concurrency_limit() == concurrency_limit,
            r.spec_max_retries() == max_retries,
            r.spec_success_count() == 0,
            r.spec_failure_count() == 0,
            r.spec_stream_failure_count() == 0,
            r.spec_attempts_total() == 0,
    {
        StreamHandler {
            concurrency_limit,
            max_retries,
            success_count: 0,
            failure_count: 0,
            stream_failure_count: 0,
            attempts_total: 0,
        }
    }

    /// Items processed successfully so far.
    pub fn success_count(&self) -> (r: u64)
        ensures
            r == self.spec_success_count(),
    {
        self.success_count
    }

    /// Items that exhausted their retries so far.
    pub fn failure_count(&self) -> (r: u64)
        ensures
            r == self.spec_failure_count(),
    {
        self.failure_count
    }

    /// Stream-level failures so far.
    pub fn stream_failure_count(&self) -> (r: u64)
        ensures
            r == self.spec_stream_failure_count(),
    {
        self.stream_failure_count
    }

    /// Processing attempts made so far, retries included.
    pub fn attempts_total(&self) -> (r: u64)
        ensures
            r == self.spec_attempts_total(),
    {
        self.attempts_total
    }

    /// Process one classified buffer: an empty buffer is rejected with a
    /// pipeline error, any other is accepted. (The transform itself is a
    /// placeholder; the rejection is what gives the retry path something
    /// real to handle.)
    pub fn process_data(&self, data: &ClassifiedData) -> (r: Result<(), SecureError>)
        ensures
            data@.len() == 0 ==> (r matches Err(SecureError::PipelineError(m)) && m@
                == "Empty data provided"@),
            data@.len() != 0 ==> r is Ok,
    {
        if data.is_empty() {
            return Err(SecureError::PipelineError(String::from_str("Empty data provided")));
        }
        Ok(())
    }

    /// Process one item with up to `max_retries` additional immediate
    /// attempts on failure.
    ///
    /// An item that processes cleanly costs exactly one attempt and one
    /// success; an item that fails is attempted exactly `1 + max_retries`
    /// times and then counted as one failure.
    pub fn handle_data_with_retries(&mut self, data: &ClassifiedData)
        requires
            data@.len() == 0 ==> old(self).spec_attempts_total() + old(self).spec_max_retries() + 1
                <= u64::MAX && old(self).spec_failure_count() < u64::MAX,
            data@.len() != 0 ==> old(self).spec_attempts_total() < u64::MAX && old(self).spec_success_count() < u64::MAX,
        ensures
            final(self).same_config(old(self)),
            final(self).spec_stream_failure_count() == old(self).spec_stream_failure_count(),
            data@.len() != 0 ==> final(self).spec_attempts_total() == old(self).spec_attempts_total() + 1 && final(self).spec_success_count() == old(self).spec_success_count() + 1 && final(self).spec_failure_count() == old(self).spec_failure_count(),
            data@.len() == 0 ==> final(self).spec_attempts_total() == old(self).spec_attempts_total() + old(self).spec_max_retries() + 1 && final(self).spec_failure_count() == old(self).spec_failure_count() + 1 && final(self).spec_success_count() == old(self).spec_success_count(),
    {
        let ghost a0 = self.attempts_total;
        let mut retries: usize = 0;
        loop
            invariant
                self.same_config(old(self)),
                a0 == old(self).spec_attempts_total(),
                self.success_count == old(self).spec_success_count(),
                self.failure_count == old(self).spec_failure_count(),
                self.stream_failure_count == old(self).spec_stream_failure_count(),
                retries <= self.max_retries,
                data@.len() == 0 ==> self.attempts_total == a0 + retries && a0
                    + self.spec_max_retries() + 1 <= u64::MAX && self.failure_count < u64::MAX,
                data@.len() != 0 ==> retries == 0 && self.attempts_total == a0 && a0 < u64::MAX
                    && self.success_count < u64::MAX,
            decreases self.max_retries - retries,
        {
            self.attempts_total = self.attempts_total + 1;
            match self.process_data(data) {
                Ok(_) => {
                    self.success_count = self.success_count + 1;
                    return ;
                },
                Err(_) => {
                    if retries == self.max_retries {
                        self.failure_count = self.failure_count + 1;
                        return ;
                    }
                    retries = retries + 1;
                },
            }
        }
    }

    /// Account one drained stream entry: a stream-level failure is
    /// counted and skipped without retry; a produced item goes through
    /// the retry loop.
    pub fn handle_item(&mut self, item: Result<ClassifiedData, SecureError>)
        requires
            (item matches Ok(d) && d@.len() == 0) ==> old(self).spec_attempts_total() + old(self).spec_max_retries() + 1 <= u64::MAX && old(self).spec_failure_count() < u64::MAX,
            (item matches Ok(d) && d@.len() != 0) ==> old(self).spec_attempts_total() < u64::MAX
                && old(self).spec_success_count() < u64::MAX,
            item is Err ==> old(self).spec_stream_failure_count() < u64::MAX,
        ensures
            final(self).same_config(old(self)),
            final(self).spec_attempts_total() == old(self).spec_attempts_total()
                + spec_item_attempts(item, old(self).spec_max_retries()),
            final(self).spec_success_count() == old(self).spec_success_count() + (
            match item {
                Ok(d) => if d@.len() != 0 {
                    1int
                } else {
                    0int
                },
                Err(_) => 0int,
            }),
            final(self).spec_failure_count() == old(self).spec_failure_count() + (
            match item {
                Ok(d) => if d@.len() == 0 {
                    1int
                } else {
                    0int
                },
                Err(_) => 0int,
            }),
            final(self).spec_stream_failure_count() == old(self).spec_stream_failure_count() + (
            match item {
                Ok(_) => 0int,
                Err(_) => 1int,
            }),
    {
        match item {
            Ok(data) => self.handle_data_with_retries(&data),
            Err(_) => {
                self.stream_failure_count = self.stream_failure_count + 1;
            },
        }
    }

    /// Drain a whole sequence of fallible items, accounting every one.
    ///
    /// Completes only once every entry is accounted; the counters grow
    /// by exactly the counts the sequence determines.
    pub fn run_stream(&mut self, items: Vec<Result<ClassifiedData, SecureError>>) -> (r: Result<
        (),
        SecureError,
    >)
        requires
            old(self).spec_attempts_total() + spec_total_attempts(
                items@,
                old(self).spec_max_retries(),
            ) <= u64::MAX,
            old(self).spec_success_count() + spec_success_items(items@) <= u64::MAX,
            old(self).spec_failure_count() + spec_failed_items(items@) <= u64::MAX,
            old(self).spec_stream_failure_count() + spec_stream_failures(items@) <= u64::MAX,
        ensures
            r is Ok,
            final(self).same_config(old(self)),
            final(self).spec_attempts_total() == old(self).spec_attempts_total()
                + spec_total_attempts(items@, old(self).spec_max_retries()),
            final(self).spec_success_count() == old(self).spec_success_count()
                + spec_success_items(items@),
            final(self).spec_failure_count() == old(self).spec_failure_count() + spec_failed_items(
                items@,
            ),
            final(self).spec_stream_failure_count() == old(self).spec_stream_failure_count()
                + spec_stream_failures(items@),
    {
        let ghost orig = items@;
        let ghost mr = self.spec_max_retries();
        let mut items = items;
        while items.len() > 0
            invariant
                self.same_config(old(self)),
                mr == self.spec_max_retries(),
                self.spec_attempts_total() == old(self).spec_attempts_total()
                    + spec_total_attempts(orig, mr) - spec_total_attempts(items@, mr),
                self.spec_success_count() == old(self).spec_success_count() + spec_success_items(
                    orig,
                ) - spec_success_items(items@),
                self.spec_failure_count() == old(self).spec_failure_count() + spec_failed_items(
                    orig,
                ) - spec_failed_items(items@),
                self.spec_stream_failure_count() == old(self).spec_stream_failure_count()
                    + spec_stream_failures(orig) - spec_stream_failures(items@),
                old(self).spec_attempts_total() + spec_total_attempts(orig, mr) <= u64::MAX,
                old(self).spec_success_count() + spec_success_items(orig) <= u64::MAX,
                old(self).spec_failure_count() + spec_failed_items(orig) <= u64::MAX,
                old(self).spec_stream_failure_count() + spec_stream_failures(orig) <= u64::MAX,
                spec_total_attempts(items@, mr) <= spec_total_attempts(orig, mr),
                spec_success_items(items@) <= spec_success_items(orig),
                spec_failed_items(items@) <= spec_failed_items(orig),
                spec_stream_failures(items@) <= spec_stream_failures(orig),
            decreases items@.len(),
        {
            let ghost before = items@;
            let item = items.remove(0);
            proof {
                assert(items@ == before.drop_first());
                lemma_counts_nonneg(items@, self.spec_max_retries());
            }
            self.handle_item(item);
        }
        Ok(())
    }

    /// The stage view of the handler: validate one classified buffer
    /// and pass it through.
    pub fn process(&self, data: ClassifiedData) -> (r: Result<ClassifiedData, SecureError>)
        ensures
            data@.len() == 0 ==> (r matches Err(SecureError::PipelineError(m)) && m@
                == "Empty data provided"@),
            data@.len() != 0 ==> (r matches Ok(d) && d@ == data@),
    {
        match self.process_data(&data) {
            Ok(_) => Ok(data),
            Err(e) => Err(e),
        }
    }
}

} // verus!
