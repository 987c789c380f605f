//! The cached state of one query: a small state machine.
//!
//! A `Query` owns the last successful value, its timestamp, the entry's
//! configuration, and the observable state (`Idle`, `Loading`, `Ready`,
//! `Failed`).  A fetch is asynchronous, so the entry exposes the fetch as
//! two transitions: [`Query::begin_fetch`] marks the fetch in flight (or
//! reports that one already is, which is how concurrent callers join it),
//! and [`Query::complete_ok`] / [`Query::complete_err`] commit the
//! outcome the embedding obtained.  Every transition yields the
//! [`QueryChangeEvent`] that observers of the entry must be told.

use vstd::prelude::*;
use crate::error::Error;
use crate::error::QueryError;
use crate::error::TypeMismatchError;
use crate::observer::QueryChangeEvent;
use crate::retry::Retry;
use crate::state::QueryState;
use crate::value::QueryValue;

verus! {

/// Addition on timestamps that stops at the largest representable one.
pub open spec fn sat_add(a: u64, b: u64) -> u64 {
    if a + b <= u64::MAX {
        (a + b) as u64
    } else {
        u64::MAX
    }
}

/// The plan a fetch request is answered with.
///
/// The embedding executes the plan: it serves the value, joins the
/// in-flight fetch, or runs the fetch operation under a fresh
/// [`crate::fetcher::FetchRun`] over the given backoff delays.
#[derive(Debug)]
pub enum FetchPlan {
    /// A fresh value was in the cache; no fetch runs.
    Value(QueryValue),
    /// A fetch for this key is already in flight; await its outcome
    /// rather than starting a second one.
    Join,
    /// Run the fetch operation with the given backoff delays.  When
    /// `store` is set the engine has marked the entry as loading and the
    /// outcome must be reported back through
    /// [`crate::client::QueryClient::complete_query`]; otherwise the
    /// result is passed through to the caller without being cached.
    Fetch {
        /// The backoff delays for the run, in milliseconds.
        delays: Vec<u64>,
        /// Whether the outcome is to be committed to the cache.
        store: bool,
    },
}

/// The cached state of one query.
#[derive(Debug)]
pub struct Query {
    /// The type tag of the value this entry holds.
    pub type_id: u64,
    /// The last successful value, if any.
    pub last_value: Option<QueryValue>,
    /// When the last successful value was resolved, in milliseconds.
    pub updated_at: Option<u64>,
    /// How long a resolved value stays fresh, in milliseconds.
    pub cache_time: Option<u64>,
    /// The interval of the background refetch, in milliseconds.
    pub refetch_time: Option<u64>,
    /// The backoff schedule for retrying this entry's fetches.
    pub retry: Option<Retry>,
    /// The observable state.
    pub state: QueryState,
    /// How many physical fetches have been started for this entry.
    pub fetch_count: u64,
    /// When the armed background refetch is due, in milliseconds.
    pub next_refetch: Option<u64>,
}

impl Query {
    /// The entry's invariant: a ready entry has a value, and a value and
    /// its timestamp are present together.
    pub open spec fn wf(&self) -> bool {
        &&& (self.state is Ready ==> self.last_value is Some)
        &&& (self.last_value is Some <==> self.updated_at is Some)
    }

    /// Whether the value is past its time-to-live at `now`.
    ///
    /// An entry with no time-to-live, or no value yet, is never expired.
    pub open spec fn expired_at(&self, now: u64) -> bool {
        &&& self.updated_at is Some
        &&& self.cache_time is Some
        &&& now >= self.updated_at->0 + self.cache_time->0
    }

    /// Whether the entry reports itself stale at `now`: never while it
    /// is not `Ready`, otherwise exactly when the value is expired.
    pub open spec fn stale_at(&self, now: u64) -> bool {
        self.state is Ready && self.expired_at(now)
    }

    /// The entry after a fetch is marked in flight.
    pub open spec fn spec_begin_fetch(self) -> Query {
        Query { state: QueryState::Loading, fetch_count: sat_add(self.fetch_count, 1), ..self }
    }

    /// The entry after an in-flight fetch resolves to `value` at `now`:
    /// the value and its timestamp are stored, the entry becomes
    /// `Ready`, and the background refetch is re-armed if the entry has
    /// a refetch interval.
    pub open spec fn spec_complete_ok(self, value: QueryValue, now: u64) -> Query {
        Query {
            last_value: Some(value),
            updated_at: Some(now),
            state: QueryState::Ready,
            next_refetch: match self.refetch_time {
                Some(r) => Some(sat_add(now, r)),
                None => self.next_refetch,
            },
            ..self
        }
    }

    /// The entry after an in-flight fetch fails: only the state changes;
    /// an earlier successful value and its timestamp stay readable.
    pub open spec fn spec_complete_err(self, error: Error) -> Query {
        Query { state: QueryState::Failed(error), ..self }
    }

    /// Constructs an idle entry with the given configuration.
    pub fn new(
        type_id: u64,
        retry: Option<Retry>,
        cache_time: Option<u64>,
        refetch_time: Option<u64>,
    ) -> (r: Query)
        ensures
            r.wf(),
            r.type_id == type_id,
            r.last_value is None,
            r.updated_at is None,
            r.cache_time == cache_time,
            r.refetch_time == refetch_time,
            r.retry == retry,
            r.state is Idle,
            r.fetch_count == 0,
            r.next_refetch is None,
    {
        Query {
            type_id,
            last_value: None,
            updated_at: None,
            cache_time,
            refetch_time,
            retry,
            state: QueryState::Idle,
            fetch_count: 0,
            next_refetch: None,
        }
    }

    /// Returns the type tag of this entry.
    pub fn type_id(&self) -> (r: u64)
        ensures
            r == self.type_id,
    {
        self.type_id
    }

    /// Returns the observable state of this entry.
    pub fn state(&self) -> (r: QueryState)
        ensures
            r == self.state,
    {
        self.state.clone()
    }

    /// Returns `true` if a fetch for this entry is in flight.
    pub fn is_fetching(&self) -> (r: bool)
        ensures
            r == (self.state is Loading),
    {
        self.state.is_loading()
    }

    /// Returns the last successful value, if any.
    pub fn last_value(&self) -> (r: Option<&QueryValue>)
        ensures
            r is Some <==> self.last_value is Some,
            r matches Some(v) ==> self.last_value matches Some(w) && *v == w,
    {
        self.last_value.as_ref()
    }

    /// Returns when the last successful value was resolved, if ever.
    pub fn updated_at(&self) -> (r: Option<u64>)
        ensures
            r == self.updated_at,
    {
        self.updated_at
    }

    /// Returns `true` if the value is past its time-to-live at `now`.
    pub fn is_stale_by_time(&self, now: u64) -> (r: bool)
        ensures
            r == self.expired_at(now),
    {
        match (self.updated_at, self.cache_time) {
            (Some(u), Some(c)) => now >= u && now - u >= c,
            _ => false,
        }
    }

    /// Returns `true` if the entry reports itself stale at `now`.
    pub fn is_stale(&self, now: u64) -> (r: bool)
        ensures
            r == self.stale_at(now),
    {
        self.state.is_ready() && self.is_stale_by_time(now)
    }

    /// Returns the value if one is present and not past its
    /// time-to-live at `now`.
    pub fn get_if_not_stale(&self, now: u64) -> (r: Option<&QueryValue>)
        ensures
            r is Some <==> (self.last_value is Some && !self.expired_at(now)),
            r matches Some(v) ==> self.last_value matches Some(w) && *v == w,
    {
        if self.is_stale_by_time(now) {
            None
        } else {
            self.last_value.as_ref()
        }
    }

    /// Returns `true` if the armed background refetch is due at `now`.
    pub fn refetch_due(&self, now: u64) -> (r: bool)
        ensures
            r == (self.next_refetch matches Some(t) && now >= t),
    {
        match self.next_refetch {
            Some(t) => now >= t,
            None => false,
        }
    }

    /// Marks a fetch in flight.
    ///
    /// If one is already in flight the entry is left untouched and no
    /// event is produced: the new caller joins the existing fetch.
    /// Otherwise the entry moves to `Loading` and the transition's event
    /// is returned.
    pub fn begin_fetch(&mut self) -> (ev: Option<QueryChangeEvent>)
        requires
            old(self).wf(),
        ensures
            final(self).wf(),
            old(self).state is Loading ==> {
                &&& *final(self) == *old(self)
                &&& ev is None
            },
            !(old(self).state is Loading) ==> {
                &&& *final(self) == old(self).spec_begin_fetch()
                &&& ev == Some(QueryChangeEvent {
                    state: QueryState::Loading,
                    is_fetching: true,
                    value: old(self).last_value,
                })
            },
    {
        if self.state.is_loading() {
            None
        } else {
            self.state = QueryState::Loading;
            if self.fetch_count < u64::MAX {
                self.fetch_count = self.fetch_count + 1;
            }
            Some(
                QueryChangeEvent {
                    state: QueryState::Loading,
                    is_fetching: true,
                    value: match &self.last_value {
                        Some(v) => Some(v.clone()),
                        None => None,
                    },
                },
            )
        }
    }

    /// Commits a successful fetch outcome.
    pub fn complete_ok(&mut self, value: QueryValue, now: u64) -> (ev: QueryChangeEvent)
        requires
            old(self).wf(),
            old(self).state is Loading,
        ensures
            final(self).wf(),
            *final(self) == old(self).spec_complete_ok(value, now),
            ev == (QueryChangeEvent {
                state: QueryState::Ready,
                is_fetching: false,
                value: Some(value),
            }),
    {
        self.last_value = Some(value.clone());
        self.updated_at = Some(now);
        self.state = QueryState::Ready;
        match self.refetch_time {
            Some(r) => {
                let due = if now <= u64::MAX - r {
                    now + r
                } else {
                    u64::MAX
                };
                self.next_refetch = Some(due);
            },
            None => {},
        }
        QueryChangeEvent { state: QueryState::Ready, is_fetching: false, value: Some(value) }
    }

    /// Commits a failed fetch outcome.
    ///
    /// The error is propagated into the state; an earlier successful
    /// value and its timestamp are left untouched, so readers can still
    /// distinguish "has older data" from "never succeeded".
    pub fn complete_err(&mut self, error: Error) -> (ev: QueryChangeEvent)
        requires
            old(self).wf(),
            old(self).state is Loading,
        ensures
            final(self).wf(),
            *final(self) == old(self).spec_complete_err(error),
            ev == (QueryChangeEvent {
                state: QueryState::Failed(error),
                is_fetching: false,
                value: old(self).last_value,
            }),
    {
        let ev = QueryChangeEvent {
            state: QueryState::Failed(error.clone()),
            is_fetching: false,
            value: match &self.last_value {
                Some(v) => Some(v.clone()),
                None => None,
            },
        };
        self.state = QueryState::Failed(error);
        ev
    }

    /// Assigns a value directly, outside any fetch.
    ///
    /// The write is refused with a type mismatch when the caller's tag
    /// differs from the entry's; otherwise the entry behaves as if a
    /// fetch had just resolved to `value` at `now`, without passing
    /// through `Loading`.
    pub fn set_value(&mut self, ty: u64, value: QueryValue, now: u64) -> (r: Result<
        QueryChangeEvent,
        QueryError,
    >)
        requires
            old(self).wf(),
        ensures
            final(self).wf(),
            old(self).type_id != ty ==> {
                &&& *final(self) == *old(self)
                &&& r matches Err(e) && e == (QueryError::TypeMismatch(TypeMismatchError { expected: ty }))
            },
            old(self).type_id == ty ==> {
                &&& *final(self) == old(self).spec_complete_ok(value, now)
                &&& r matches Ok(ev) && ev == (QueryChangeEvent {
                    state: QueryState::Ready,
                    is_fetching: false,
                    value: Some(value),
                })
            },
    {
        if self.type_id != ty {
            return Err(QueryError::type_mismatch(ty));
        }
        self.last_value = Some(value.clone());
        self.updated_at = Some(now);
        self.state = QueryState::Ready;
        match self.refetch_time {
            Some(r) => {
                let due = if now <= u64::MAX - r {
                    now + r
                } else {
                    u64::MAX
                };
                self.next_refetch = Some(due);
            },
            None => {},
        }
        Ok(QueryChangeEvent { state: QueryState::Ready, is_fetching: false, value: Some(value) })
    }
}

/// One fetch request against an entry: the first request starts the
/// fetch, a request that finds one in flight joins it.
pub open spec fn spec_fetch_request(q: Query) -> Query {
    if q.state is Loading {
        q
    } else {
        q.spec_begin_fetch()
    }
}

/// The entry after `n` fetch requests with no completion in between.
pub open spec fn spec_fetch_requests(q: Query, n: nat) -> Query
    decreases n,
{
    if n == 0 {
        q
    } else {
        spec_fetch_request(spec_fetch_requests(q, (n - 1) as nat))
    }
}

/// Law: deduplication.
///
/// However many fetch requests arrive for an entry before the first one
/// completes, the physical fetch starts exactly once: after the first
/// request the entry is loading, every further request leaves it
/// untouched, and the count of started fetches has grown by exactly one.
/// All of the requests are therefore answered by the one in-flight
/// fetch, whose single outcome is what every caller observes.
pub proof fn lemma_fetch_dedup(q: Query, n: nat)
    requires
        q.wf(),
        !(q.state is Loading),
        q.fetch_count < u64::MAX,
        n >= 1,
    ensures
        spec_fetch_requests(q, n) == q.spec_begin_fetch(),
        spec_fetch_requests(q, n).fetch_count == q.fetch_count + 1,
        spec_fetch_requests(q, n).state is Loading,
    decreases n,
{
    if n == 1 {
        assert(spec_fetch_requests(q, 1) == spec_fetch_request(spec_fetch_requests(q, 0)));
    } else {
        lemma_fetch_dedup(q, (n - 1) as nat);
    }
}

/// One tick of the background refetch taken at its due time: the tick
/// starts a fetch and the fetch resolves to `v` at the due instant.
pub open spec fn spec_refetch_tick(q: Query, v: QueryValue) -> Query {
    q.spec_begin_fetch().spec_complete_ok(v, q.next_refetch->0)
}

/// The entry after the given values arrive through successive ticks.
pub open spec fn spec_refetch_ticks(q: Query, vs: Seq<QueryValue>) -> Query
    decreases vs.len(),
{
    if vs.len() == 0 {
        q
    } else {
        spec_refetch_ticks(spec_refetch_tick(q, vs[0]), vs.drop_first())
    }
}

/// Law: refetch cadence.
///
/// With a refetch interval `r` armed to fire at `t0`, and a fetch that
/// succeeds every time it runs, the `k`-th background tick refreshes the
/// value at exactly `t0 + (k - 1) * r`: over a window of `n * r`
/// milliseconds starting at `t0`, the value is refreshed exactly `n`
/// times, one physical fetch per refresh.
pub proof fn lemma_refetch_cadence(q: Query, vs: Seq<QueryValue>, r: u64, t0: u64)
    requires
        q.wf(),
        !(q.state is Loading),
        q.refetch_time == Some(r),
        q.next_refetch == Some(t0),
        vs.len() >= 1,
        t0 + vs.len() * r <= u64::MAX,
        q.fetch_count + vs.len() <= u64::MAX,
    ensures
        spec_refetch_ticks(q, vs).updated_at == Some((t0 + (vs.len() - 1) * r) as u64),
        spec_refetch_ticks(q, vs).next_refetch == Some((t0 + vs.len() * r) as u64),
        spec_refetch_ticks(q, vs).fetch_count == q.fetch_count + vs.len(),
        spec_refetch_ticks(q, vs).state is Ready,
    decreases vs.len(),
{
    let q1 = spec_refetch_tick(q, vs[0]);
    assert(vs.len() * r >= 1 * r) by (nonlinear_arith)
        requires
            vs.len() >= 1,
    ;
    assert(q1.updated_at == Some(t0));
    assert(q1.next_refetch == Some((t0 + r) as u64));
    assert(q1.fetch_count == q.fetch_count + 1);
    if vs.len() == 1 {
    } else {
        assert((vs.len() - 1) * r == vs.len() * r - r) by (nonlinear_arith);
        lemma_refetch_cadence(q1, vs.drop_first(), r, (t0 + r) as u64);
        assert((vs.len() - 2) * r == vs.len() * r - 2 * r) by (nonlinear_arith);
    }
}

} // verus!
