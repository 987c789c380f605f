//! The retry-aware fetch executor.
//!
//! A fetch is asynchronous: the engine cannot run the caller's fetch
//! operation itself.  Instead, [`FetchRun`] is the decision half of the
//! executor.  The embedding invokes the fetch operation, reports each
//! outcome through [`FetchRun::on_result`], and obeys the returned
//! [`FetchStep`]: either the run is finished, or the embedding must sleep
//! for the given backoff delay and invoke the operation once more.

use vstd::prelude::*;
use crate::error::Error;
use crate::retry::Retry;
use crate::value::QueryValue;

verus! {

/// What the embedding must do next after reporting an attempt's outcome.
#[derive(Debug)]
pub enum FetchStep {
    /// The run is over with this final result.
    Done(Result<QueryValue, Error>),
    /// Sleep for the given number of milliseconds, then invoke the fetch
    /// operation again and report its outcome.
    RetryAfter(u64),
}

/// One execution of a fetch with retries.
///
/// The run invokes the fetch operation once, and after each failure
/// consumes one delay of the backoff schedule; it ends with the first
/// success, or with the last error once the schedule is exhausted (with
/// an empty schedule, the first error ends the run at once).
#[derive(Debug)]
pub struct FetchRun {
    /// The backoff delays of this run, in milliseconds.
    pub delays: Vec<u64>,
    /// How many delays have been consumed so far.
    pub used: usize,
    /// How many attempt outcomes have been reported so far.
    pub attempts: u64,
    /// The final result, once the run is over.
    pub outcome: Option<Result<QueryValue, Error>>,
}

impl FetchRun {
    /// The bookkeeping invariant of a run.
    pub open spec fn wf(&self) -> bool {
        &&& self.used <= self.delays@.len()
        &&& (self.outcome is None ==> self.attempts == self.used)
        &&& (self.outcome is Some ==> self.attempts == self.used + 1)
    }

    /// The run after one more attempt outcome, and the step it answers.
    pub open spec fn spec_on_result(self, result: Result<QueryValue, Error>) -> (FetchRun,
        FetchStep) {
        match result {
            Ok(v) => (
                FetchRun {
                    attempts: (self.attempts + 1) as u64,
                    outcome: Some(Ok(v)),
                    ..self
                },
                FetchStep::Done(Ok(v)),
            ),
            Err(e) => {
                if self.used < self.delays@.len() {
                    (
                        FetchRun {
                            attempts: (self.attempts + 1) as u64,
                            used: (self.used + 1) as usize,
                            ..self
                        },
                        FetchStep::RetryAfter(self.delays@[self.used as int]),
                    )
                } else {
                    (
                        FetchRun {
                            attempts: (self.attempts + 1) as u64,
                            outcome: Some(Err(e)),
                            ..self
                        },
                        FetchStep::Done(Err(e)),
                    )
                }
            },
        }
    }

    /// Starts a run over the given schedule.
    ///
    /// The schedule is consumed afresh: no state of an earlier run is
    /// carried over.
    pub fn new(retry: Option<&Retry>) -> (r: FetchRun)
        ensures
            r.wf(),
            r.delays@ == (match retry {
                Some(rt) => rt@,
                None => Seq::<u64>::empty(),
            }),
            r.used == 0,
            r.attempts == 0,
            r.outcome is None,
    {
        let delays = match retry {
            Some(rt) => rt.get(),
            None => Vec::new(),
        };
        FetchRun { delays, used: 0, attempts: 0, outcome: None }
    }

    /// Reports the outcome of one invocation of the fetch operation.
    pub fn on_result(&mut self, result: Result<QueryValue, Error>) -> (step: FetchStep)
        requires
            old(self).wf(),
            old(self).outcome is None,
            old(self).attempts < u64::MAX,
        ensures
            final(self).wf(),
            (*final(self), step) == old(self).spec_on_result(result),
    {
        match result {
            Ok(v) => {
                self.attempts = self.attempts + 1;
                self.outcome = Some(Ok(v.clone()));
                FetchStep::Done(Ok(v))
            },
            Err(e) => {
                self.attempts = self.attempts + 1;
                if self.used < self.delays.len() {
                    let d = self.delays[self.used];
                    self.used = self.used + 1;
                    FetchStep::RetryAfter(d)
                } else {
                    self.outcome = Some(Err(e.clone()));
                    FetchStep::Done(Err(e))
                }
            },
        }
    }

    /// Returns `true` once the run has delivered its final result.
    pub fn is_done(&self) -> (r: bool)
        ensures
            r == (self.outcome is Some),
    {
        self.outcome.is_some()
    }
}

/// The run after a sequence of failed attempts, folded from the front.
pub open spec fn run_after_failures(run: FetchRun, errs: Seq<Error>) -> FetchRun
    decreases errs.len(),
{
    if errs.len() == 0 {
        run
    } else {
        run_after_failures(run.spec_on_result(Err(errs[0])).0, errs.drop_first())
    }
}

/// Law: retry exhaustion.
///
/// If every attempt of a fresh run fails, the run makes exactly one
/// attempt per backoff delay plus the initial one — `delays.len() + 1`
/// attempts in all — and its final result is the error of the last
/// attempt.
pub proof fn lemma_retry_exhaustion(run: FetchRun, errs: Seq<Error>)
    requires
        run.wf(),
        run.used == 0,
        run.attempts == 0,
        run.outcome is None,
        errs.len() == run.delays@.len() + 1,
        run.delays@.len() < usize::MAX,
    ensures
        run_after_failures(run, errs).attempts == run.delays@.len() + 1,
        run_after_failures(run, errs).outcome == Some(Err::<QueryValue, Error>(errs.last())),
{
    lemma_failures_step(run, errs);
}

/// Feeding a run `delays.len() - used + 1` failures exhausts the
/// schedule and leaves the last error as the outcome.
proof fn lemma_failures_step(run: FetchRun, errs: Seq<Error>)
    requires
        run.wf(),
        run.outcome is None,
        errs.len() == run.delays@.len() - run.used + 1,
        run.delays@.len() < usize::MAX,
    ensures
        run_after_failures(run, errs).attempts == run.attempts + errs.len(),
        run_after_failures(run, errs).outcome == Some(Err::<QueryValue, Error>(errs.last())),
    decreases errs.len(),
{
    let (next, _) = run.spec_on_result(Err(errs[0]));
    if errs.len() == 1 {
        assert(run.used == run.delays@.len());
        assert(run_after_failures(next, errs.drop_first()) == next);
    } else {
        assert(run.used < run.delays@.len());
        assert(next.used == run.used + 1);
        assert(next.attempts == run.attempts + 1);
        lemma_failures_step(next, errs.drop_first());
        assert(errs.drop_first().last() == errs.last());
    }
}

} // verus!
