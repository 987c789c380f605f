//! Backoff schedules for retrying failed fetches.

use vstd::prelude::*;

verus! {

/// A reusable backoff schedule.
///
/// The schedule is a finite sequence of delays in milliseconds.  Each
/// retry run consumes a fresh copy of the sequence, so state from one run
/// never leaks into the next.
#[derive(Debug, PartialEq, Eq)]
pub struct Retry {
    delays: Vec<u64>,
}

impl Retry {
    /// Constructs a schedule from the given delays, in milliseconds.
    pub fn new(delays: Vec<u64>) -> (r: Retry)
        ensures
            r@ == delays@,
    {
        Retry { delays }
    }

    /// Returns a fresh copy of the delay sequence for one retry run.
    pub fn get(&self) -> (r: Vec<u64>)
        ensures
            r@ == self@,
    {
        self.delays.clone()
    }
}

impl View for Retry {
    type V = Seq<u64>;

    closed spec fn view(&self) -> Seq<u64> {
        self.delays@
    }
}

impl Clone for Retry {
    fn clone(&self) -> (r: Self)
        ensures
            r@ == self@,
    {
        Retry { delays: self.delays.clone() }
    }
}

} // verus!
