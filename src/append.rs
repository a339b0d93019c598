//! How output records are submitted to the output log.

use vstd::prelude::*;

verus! {

/// The most records one append carries.
pub const MAX_BATCH_RECORDS: usize = 1000;

/// How long an under-full batch waits for more records, in milliseconds:
/// not at all, so a batch holds what is queued when it is cut.
pub const LINGER_MILLIS: u64 = 0;

/// The batching and ordering of the output log's append session.
#[derive(PartialEq, Eq, Structural, Clone, Copy, Debug)]
pub struct AppendConfig {
    pub max_batch_records: usize,
    pub linger_millis: u64,
    /// The sequence number at which the first batch must land; the log
    /// rejects the append, and the session fails, if its tail has moved on.
    pub match_seq_num: Option<u64>,
}

impl AppendConfig {
    /// The session for an output log whose tail stood at `tail` when the
    /// bridge started: nothing else may have been appended before our first
    /// batch.
    pub fn for_tail(tail: u64) -> (r: AppendConfig)
        ensures
            r.max_batch_records == MAX_BATCH_RECORDS,
            r.linger_millis == LINGER_MILLIS,
            r.match_seq_num == Some(tail),
    {
        AppendConfig {
            max_batch_records: MAX_BATCH_RECORDS,
            linger_millis: LINGER_MILLIS,
            match_seq_num: Some(tail),
        }
    }
}

} // verus!
