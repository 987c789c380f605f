//! Per-query configuration.

use vstd::prelude::*;
use crate::retry::Retry;

verus! {

/// Options for a query: time-to-live, refetch interval and retry schedule.
///
/// All durations are in milliseconds.  An unset option falls back to the
/// client default at the point of use.
#[derive(Debug)]
pub struct QueryOptions {
    /// How long a resolved value can be served from cache.
    pub cache_time: Option<u64>,
    /// The interval at which the data is refetched in the background.
    pub refetch_time: Option<u64>,
    /// The backoff schedule used to retry a failed fetch.
    pub retry: Option<Retry>,
}

impl QueryOptions {
    /// Constructs options with nothing set.
    pub fn new() -> (r: QueryOptions)
        ensures
            r.cache_time is None,
            r.refetch_time is None,
            r.retry is None,
    {
        QueryOptions { cache_time: None, refetch_time: None, retry: None }
    }

    /// Sets the time a query can be reused from cache, in milliseconds.
    pub fn cache_time(self, cache_time: u64) -> (r: QueryOptions)
        ensures
            r.cache_time == Some(cache_time),
            r.refetch_time == self.refetch_time,
            r.retry == self.retry,
    {
        QueryOptions { cache_time: Some(cache_time), ..self }
    }

    /// Sets the interval at which the data is refetched, in milliseconds.
    pub fn refetch_time(self, refetch_time: u64) -> (r: QueryOptions)
        ensures
            r.cache_time == self.cache_time,
            r.refetch_time == Some(refetch_time),
            r.retry == self.retry,
    {
        QueryOptions { refetch_time: Some(refetch_time), ..self }
    }

    /// Sets the backoff schedule used to retry a failed fetch.
    pub fn retry(self, retry: Retry) -> (r: QueryOptions)
        ensures
            r.cache_time == self.cache_time,
            r.refetch_time == self.refetch_time,
            r.retry == Some(retry),
    {
        QueryOptions { retry: Some(retry), ..self }
    }
}

} // verus!
