//! The query client: the façade over store, defaults and fetch protocol.
//!
//! The client owns a cache backend, the default time-to-live, refetch
//! interval and retry schedule, and a log of state-change events.  A
//! fetch is asynchronous, so `fetch_query` answers with a [`FetchPlan`]
//! instead of a value: either a fresh cached value, or the instruction to
//! join the fetch already in flight, or the instruction to run the fetch
//! operation (under a [`crate::fetcher::FetchRun`] over the plan's
//! delays) and report the outcome back through
//! [`QueryClient::complete_query`].

use vstd::prelude::*;
use crate::cache::QueryCache;
use crate::cache::VecCache;
use crate::error::Error;
use crate::error::QueryError;
use crate::key::QueryKey;
use crate::observer::QueryChangeEvent;
use crate::options::QueryOptions;
use crate::query::FetchPlan;
use crate::query::Query;
use crate::retry::Retry;
use crate::state::QueryState;
use crate::value::QueryValue;

verus! {

/// Every stored entry is well formed and tagged like its key.
pub open spec fn entries_ok(m: Map<(Seq<char>, u64), Query>) -> bool {
    forall|k: (Seq<char>, u64)| #[trigger]
        m.contains_key(k) ==> m[k].wf() && m[k].type_id == k.1
}

/// The delays of an optional retry schedule, as a sequence.
pub open spec fn retry_view(r: Option<Retry>) -> Option<Seq<u64>> {
    match r {
        Some(rt) => Some(rt@),
        None => None,
    }
}

/// An option, or a fallback where it is unset.
pub open spec fn opt_or<T>(a: Option<T>, b: Option<T>) -> Option<T> {
    if a is Some {
        a
    } else {
        b
    }
}

/// The delays of an optional schedule; none means no retries.
pub open spec fn delays_of(v: Option<Seq<u64>>) -> Seq<u64> {
    match v {
        Some(s) => s,
        None => Seq::empty(),
    }
}

/// The time-to-live named by a request's own options.
pub open spec fn opts_cache_time(o: Option<&QueryOptions>) -> Option<u64> {
    match o {
        Some(x) => x.cache_time,
        None => None,
    }
}

/// The refetch interval named by a request's own options.
pub open spec fn opts_refetch_time(o: Option<&QueryOptions>) -> Option<u64> {
    match o {
        Some(x) => x.refetch_time,
        None => None,
    }
}

/// The retry delays named by a request's own options.
pub open spec fn opts_retry_view(o: Option<&QueryOptions>) -> Option<Seq<u64>> {
    match o {
        Some(x) => retry_view(x.retry),
        None => None,
    }
}

/// What a fetch request does, stated over the client before (`pre`) and
/// after (`post`) the call.
///
/// The request is answered in the first of these ways that applies:
/// a fresh cached value is served as it stands; a fetch already in
/// flight is joined; with no effective time-to-live the fetch runs as a
/// pass-through, never touching the store; an existing entry is marked
/// loading and fetched with its own retry schedule; and for an unknown
/// key an entry is created from the effective options and marked
/// loading.  Client defaults take precedence over the request's own
/// options; events are logged for exactly the transitions made.
pub open spec fn fetch_query_post<C: QueryCache>(
    pre: QueryClient<C>,
    post: QueryClient<C>,
    key: QueryKey,
    o_ct: Option<u64>,
    o_rt: Option<u64>,
    o_retry: Option<Seq<u64>>,
    now: u64,
    plan: FetchPlan,
) -> bool {
    let m = pre.entries();
    let k = key@;
    let ct = opt_or(pre.options.cache_time, o_ct);
    let rt = opt_or(pre.options.refetch_time, o_rt);
    let rv = opt_or(retry_view(pre.options.retry), o_retry);
    let fresh = m.contains_key(k) && m[k].last_value is Some && !m[k].expired_at(now);
    let joining = !fresh && m.contains_key(k) && m[k].state is Loading;
    &&& post.options == pre.options
    &&& if fresh {
        &&& plan matches FetchPlan::Value(v) && m[k].last_value == Some(v)
        &&& post.entries() == m
        &&& post.events@ == pre.events@
    } else if joining {
        &&& plan is Join
        &&& post.entries() == m
        &&& post.events@ == pre.events@
    } else if ct is None {
        &&& plan matches FetchPlan::Fetch { delays, store } && !store && delays@ == delays_of(rv)
        &&& post.entries() == m
        &&& post.events@ == pre.events@
    } else if m.contains_key(k) {
        &&& post.entries() == m.insert(k, m[k].spec_begin_fetch())
        &&& plan matches FetchPlan::Fetch { delays, store } && store && delays@ == delays_of(
            retry_view(m[k].retry),
        )
        &&& post.events@ == pre.events@.push(
            (
                key,
                QueryChangeEvent {
                    state: QueryState::Loading,
                    is_fetching: true,
                    value: m[k].last_value,
                },
            ),
        )
    } else {
        &&& post.entries().contains_key(k)
        &&& ({
            let q = post.entries()[k];
            &&& post.entries() == m.insert(k, q)
            &&& q.type_id == k.1
            &&& q.state is Loading
            &&& q.fetch_count == 1
            &&& q.last_value is None
            &&& q.updated_at is None
            &&& q.next_refetch is None
            &&& q.cache_time == ct
            &&& q.refetch_time == rt
            &&& retry_view(q.retry) == rv
        })
        &&& plan matches FetchPlan::Fetch { delays, store } && store && delays@ == delays_of(rv)
        &&& post.events@ == pre.events@.push(
            (key, QueryChangeEvent { state: QueryState::Idle, is_fetching: false, value: None }),
        ).push(
            (key, QueryChangeEvent { state: QueryState::Loading, is_fetching: true, value: None }),
        )
    }
}

/// The mechanism used for fetching and caching queries.
pub struct QueryClient<C: QueryCache> {
    /// The store holding the entries.
    pub cache: C,
    /// The client-wide default options.
    pub options: QueryOptions,
    /// State-change events not yet handed to observers, oldest first.
    pub events: Vec<(QueryKey, QueryChangeEvent)>,
}

impl<C: QueryCache> QueryClient<C> {
    /// The client's invariant: the backend's own invariant holds and
    /// every stored entry is well formed and tagged like its key.
    pub open spec fn inv(&self) -> bool {
        &&& self.cache.inv()
        &&& entries_ok(self.cache.view())
    }

    /// The entries of the store, by key view.
    pub open spec fn entries(&self) -> Map<(Seq<char>, u64), Query> {
        self.cache.view()
    }

    /// The effective time-to-live for a request: the client default,
    /// or the per-request option where the client has none.
    pub open spec fn eff_cache_time(&self, options: Option<&QueryOptions>) -> Option<u64> {
        opt_or(
            self.options.cache_time,
            match options {
                Some(o) => o.cache_time,
                None => None,
            },
        )
    }

    /// The effective refetch interval for a request.
    pub open spec fn eff_refetch_time(&self, options: Option<&QueryOptions>) -> Option<u64> {
        opt_or(
            self.options.refetch_time,
            match options {
                Some(o) => o.refetch_time,
                None => None,
            },
        )
    }

    /// The delays of the effective retry schedule for a request.
    pub open spec fn eff_retry_view(&self, options: Option<&QueryOptions>) -> Option<Seq<u64>> {
        opt_or(
            retry_view(self.options.retry),
            match options {
                Some(o) => retry_view(o.retry),
                None => None,
            },
        )
    }

    /// Returns a builder for a `QueryClient`.
    pub fn builder() -> (r: QueryClientBuilder)
        ensures
            r.options.cache_time is None,
            r.options.refetch_time is None,
            r.options.retry is None,
    {
        QueryClientBuilder::new()
    }

    /// Constructs a client over the given backend and default options.
    pub fn new(cache: C, options: QueryOptions) -> (r: QueryClient<C>)
        requires
            cache.inv(),
            entries_ok(cache.view()),
        ensures
            r.inv(),
            r.entries() == cache.view(),
            r.options == options,
            r.events@.len() == 0,
    {
        QueryClient { cache, options, events: Vec::new() }
    }

    /// Returns `true` if the entry for the key reports itself stale.
    pub fn is_stale(&self, key: &QueryKey, now: u64) -> (r: bool)
        requires
            self.inv(),
        ensures
            r == (self.entries().contains_key(key@) && self.entries()[key@].stale_at(now)),
    {
        match self.cache.get(key) {
            Some(q) => q.is_stale(now),
            None => false,
        }
    }

    /// Returns `true` if a fetch for the key is in flight.
    pub fn is_fetching(&self, key: &QueryKey) -> (r: bool)
        requires
            self.inv(),
        ensures
            r == (self.entries().contains_key(key@) && self.entries()[key@].state is Loading),
    {
        match self.cache.get(key) {
            Some(q) => q.is_fetching(),
            None => false,
        }
    }

    /// Returns `true` if there is an entry for the key.
    pub fn contains_query(&self, key: &QueryKey) -> (r: bool)
        requires
            self.inv(),
        ensures
            r == self.entries().contains_key(key@),
    {
        self.cache.has(key)
    }

    /// Returns the entry for the key.
    pub fn get_query(&self, key: &QueryKey) -> (r: Option<&Query>)
        requires
            self.inv(),
        ensures
            r is Some <==> self.entries().contains_key(key@),
            r matches Some(q) ==> *q == self.entries()[key@],
    {
        self.cache.get(key)
    }

    /// Returns `true` if the key has a value that is not past its
    /// time-to-live.
    pub fn has_query_data(&self, key: &QueryKey, now: u64) -> (r: bool)
        requires
            self.inv(),
        ensures
            r == (self.entries().contains_key(key@) && self.entries()[key@].last_value is Some
                && !self.entries()[key@].expired_at(now)),
    {
        match self.cache.get(key) {
            Some(q) => q.get_if_not_stale(now).is_some(),
            None => false,
        }
    }

    /// Returns the state of the entry for the key, unless the entry is
    /// stale or absent.
    pub fn get_query_state(&self, key: &QueryKey, now: u64) -> (r: Option<QueryState>)
        requires
            self.inv(),
        ensures
            (self.entries().contains_key(key@) && !self.entries()[key@].stale_at(now)) ==> r
                == Some(self.entries()[key@].state),
            !(self.entries().contains_key(key@) && !self.entries()[key@].stale_at(now)) ==> r
                is None,
    {
        match self.cache.get(key) {
            Some(q) => {
                if q.is_stale(now) {
                    None
                } else {
                    Some(q.state())
                }
            },
            None => None,
        }
    }

    /// Returns the cached value for the key.
    ///
    /// The read succeeds exactly when the caller's tag matches the key,
    /// an entry exists, its value is within its time-to-live and has
    /// resolved at least once; each error names the first of these that
    /// fails.
    pub fn get_query_data(&self, key: &QueryKey, ty: u64, now: u64) -> (r: Result<
        QueryValue,
        QueryError,
    >)
        requires
            self.inv(),
        ensures
            ({
                let m = self.entries();
                let k = key@;
                match r {
                    Ok(v) => k.1 == ty && m.contains_key(k) && !m[k].expired_at(now)
                        && m[k].last_value == Some(v),
                    Err(e) => match e {
                        QueryError::TypeMismatch(t) => k.1 != ty && t.expected == ty,
                        QueryError::KeyNotFound(kn) => k.1 == ty && !m.contains_key(k)
                            && kn.key@ == k.0,
                        QueryError::StaleValue => k.1 == ty && m.contains_key(k)
                            && m[k].expired_at(now),
                        QueryError::NotReady => k.1 == ty && m.contains_key(k)
                            && !m[k].expired_at(now) && m[k].last_value is None,
                    },
                }
            }),
    {
        if !key.is_type(ty) {
            return Err(QueryError::type_mismatch(ty));
        }
        match self.cache.get(key) {
            None => Err(QueryError::key_not_found(key.key().name().clone())),
            Some(q) => {
                if q.is_stale_by_time(now) {
                    Err(QueryError::StaleValue)
                } else {
                    match q.last_value() {
                        Some(v) => Ok(v.clone()),
                        None => Err(QueryError::NotReady),
                    }
                }
            },
        }
    }

    /// Assigns the value for an existing entry of matching type.
    ///
    /// On success the entry behaves as if a fetch had just resolved to
    /// the value at `now`: it becomes ready, its timestamp is `now`, the
    /// background refetch is re-armed, and the transition's event is
    /// logged.
    pub fn set_query_data(&mut self, key: &QueryKey, ty: u64, value: QueryValue, now: u64) -> (r:
        Result<(), QueryError>)
        requires
            old(self).inv(),
        ensures
            final(self).inv(),
            final(self).options == old(self).options,
            ({
                let m = old(self).entries();
                let k = key@;
                match r {
                    Ok(()) => k.1 == ty && m.contains_key(k) && final(self).entries()
                        == m.insert(k, m[k].spec_complete_ok(value, now)) && final(self).events@
                        == old(self).events@.push(
                        (
                            *key,
                            QueryChangeEvent {
                                state: QueryState::Ready,
                                is_fetching: false,
                                value: Some(value),
                            },
                        ),
                    ),
                    Err(e) => final(self).entries() == m && final(self).events@ == old(
                        self,
                    ).events@ && (match e {
                        QueryError::TypeMismatch(t) => k.1 != ty && t.expected == ty,
                        QueryError::KeyNotFound(kn) => k.1 == ty && !m.contains_key(k)
                            && kn.key@ == k.0,
                        QueryError::StaleValue => false,
                        QueryError::NotReady => false,
                    }),
                }
            }),
    {
        if !key.is_type(ty) {
            return Err(QueryError::type_mismatch(ty));
        }
        match self.cache.remove(key) {
            None => Err(QueryError::key_not_found(key.key().name().clone())),
            Some(mut q) => {
                let ev = match q.set_value(ty, value, now) {
                    Ok(ev) => ev,
                    Err(e) => {
                        // Unreachable: a stored entry carries its key's tag.
                        proof {
                            assert(false);
                        }
                        return Err(e);
                    },
                };
                self.cache.set(key.clone(), q);
                self.events.push((key.clone(), ev));
                proof {
                    assert(final(self).entries() =~= old(self).entries().insert(
                        key@,
                        old(self).entries()[key@].spec_complete_ok(value, now),
                    ));
                }
                Ok(())
            },
        }
    }

    /// Removes the entry for the key; its background refetch dies with
    /// it.  Returns `true` if an entry was removed.
    pub fn remove_query_data(&mut self, key: &QueryKey) -> (r: bool)
        requires
            old(self).inv(),
        ensures
            final(self).inv(),
            final(self).options == old(self).options,
            final(self).events@ == old(self).events@,
            final(self).entries() == old(self).entries().remove(key@),
            r == old(self).entries().contains_key(key@),
    {
        self.cache.remove(key).is_some()
    }

    /// Removes every entry; all background refetches die with them.
    pub fn clear_queries(&mut self)
        requires
            old(self).inv(),
        ensures
            final(self).inv(),
            final(self).options == old(self).options,
            final(self).events@ == old(self).events@,
            final(self).entries() == Map::<(Seq<char>, u64), Query>::empty(),
    {
        self.cache.clear();
    }

    /// The effective retry schedule for a request, as a fresh value.
    fn eff_retry(&self, options: Option<&QueryOptions>) -> (r: Option<Retry>)
        ensures
            retry_view(r) == self.eff_retry_view(options),
    {
        match &self.options.retry {
            Some(rt) => Some(rt.clone()),
            None => match options {
                Some(o) => match &o.retry {
                    Some(rt) => Some(rt.clone()),
                    None => None,
                },
                None => None,
            },
        }
    }

    /// The delays of the effective retry schedule for a request.
    fn eff_retry_delays(&self, options: Option<&QueryOptions>) -> (r: Vec<u64>)
        ensures
            r@ == delays_of(self.eff_retry_view(options)),
    {
        match &self.options.retry {
            Some(rt) => rt.get(),
            None => match options {
                Some(o) => match &o.retry {
                    Some(rt) => rt.get(),
                    None => Vec::new(),
                },
                None => Vec::new(),
            },
        }
    }

    /// Answers a fetch request for the key with the client's defaults.
    ///
    /// The returned plan tells the embedding what to do; see
    /// [`fetch_query_post`] for the exact protocol.
    pub fn fetch_query(&mut self, key: &QueryKey, now: u64) -> (plan: FetchPlan)
        requires
            old(self).inv(),
        ensures
            final(self).inv(),
            fetch_query_post(*old(self), *final(self), *key, None, None, None, now, plan),
    {
        self.fetch_query_with_options(key, None, now)
    }

    /// Answers a fetch request for the key, the given options filling
    /// in where the client has no default.
    ///
    /// See [`fetch_query_post`] for the exact protocol.
    pub fn fetch_query_with_options(
        &mut self,
        key: &QueryKey,
        options: Option<&QueryOptions>,
        now: u64,
    ) -> (plan: FetchPlan)
        requires
            old(self).inv(),
        ensures
            final(self).inv(),
            fetch_query_post(
                *old(self),
                *final(self),
                *key,
                opts_cache_time(options),
                opts_refetch_time(options),
                opts_retry_view(options),
                now,
                plan,
            ),
    {
        match self.cache.get(key) {
            Some(q) => {
                match q.get_if_not_stale(now) {
                    Some(v) => {
                        return FetchPlan::Value(v.clone());
                    },
                    None => {},
                }
                if q.is_fetching() {
                    return FetchPlan::Join;
                }
            },
            None => {},
        }
        let cache_time_eff = match self.options.cache_time {
            Some(c) => Some(c),
            None => match options {
                Some(o) => o.cache_time,
                None => None,
            },
        };
        let refetch_time_eff = match self.options.refetch_time {
            Some(t) => Some(t),
            None => match options {
                Some(o) => o.refetch_time,
                None => None,
            },
        };
        if cache_time_eff.is_none() {
            let delays = self.eff_retry_delays(options);
            return FetchPlan::Fetch { delays, store: false };
        }
        match self.cache.remove(key) {
            Some(mut q) => {
                let ev = q.begin_fetch().unwrap();
                let delays = match &q.retry {
                    Some(rt) => rt.get(),
                    None => Vec::new(),
                };
                self.cache.set(key.clone(), q);
                self.events.push((key.clone(), ev));
                proof {
                    assert(final(self).entries() =~= old(self).entries().insert(
                        key@,
                        old(self).entries()[key@].spec_begin_fetch(),
                    ));
                }
                FetchPlan::Fetch { delays, store: true }
            },
            None => {
                let retry_eff = self.eff_retry(options);
                let mut q = Query::new(key.type_id(), retry_eff, cache_time_eff, refetch_time_eff);
                self.events.push(
                    (
                        key.clone(),
                        QueryChangeEvent {
                            state: QueryState::Idle,
                            is_fetching: false,
                            value: None,
                        },
                    ),
                );
                let ev = q.begin_fetch().unwrap();
                let delays = match &q.retry {
                    Some(rt) => rt.get(),
                    None => Vec::new(),
                };
                self.cache.set(key.clone(), q);
                self.events.push((key.clone(), ev));
                proof {
                    assert(self.cache.view() =~= old(self).entries().insert(
                        key@,
                        self.cache.view()[key@],
                    ));
                }
                FetchPlan::Fetch { delays, store: true }
            },
        }
    }

    /// Reports the outcome of a fetch the embedding ran for the key.
    ///
    /// If the entry is still waiting on the fetch, the outcome is
    /// committed: a success stores the value and timestamp and re-arms
    /// the background refetch, a failure only records the error, and the
    /// transition's event is logged.  An entry that was removed or
    /// superseded in the meantime is left untouched.  Either way the
    /// outcome is handed back to the caller unchanged.
    pub fn complete_query(
        &mut self,
        key: &QueryKey,
        result: Result<QueryValue, Error>,
        now: u64,
    ) -> (r: Result<QueryValue, Error>)
        requires
            old(self).inv(),
        ensures
            final(self).inv(),
            final(self).options == old(self).options,
            r == result,
            ({
                let m = old(self).entries();
                let k = key@;
                if m.contains_key(k) && m[k].state is Loading {
                    match result {
                        Ok(v) => final(self).entries() == m.insert(
                            k,
                            m[k].spec_complete_ok(v, now),
                        ) && final(self).events@ == old(self).events@.push(
                            (
                                *key,
                                QueryChangeEvent {
                                    state: QueryState::Ready,
                                    is_fetching: false,
                                    value: Some(v),
                                },
                            ),
                        ),
                        Err(e) => final(self).entries() == m.insert(
                            k,
                            m[k].spec_complete_err(e),
                        ) && final(self).events@ == old(self).events@.push(
                            (
                                *key,
                                QueryChangeEvent {
                                    state: QueryState::Failed(e),
                                    is_fetching: false,
                                    value: m[k].last_value,
                                },
                            ),
                        ),
                    }
                } else {
                    final(self).entries() == m && final(self).events@ == old(self).events@
                }
            }),
    {
        let committing = match self.cache.get(key) {
            Some(q) => q.is_fetching(),
            None => false,
        };
        if !committing {
            return result;
        }
        let mut q = self.cache.remove(key).unwrap();
        match result {
            Ok(v) => {
                let ev = q.complete_ok(v.clone(), now);
                self.cache.set(key.clone(), q);
                self.events.push((key.clone(), ev));
                proof {
                    assert(final(self).entries() =~= old(self).entries().insert(
                        key@,
                        old(self).entries()[key@].spec_complete_ok(v, now),
                    ));
                }
                Ok(v)
            },
            Err(e) => {
                let ev = q.complete_err(e.clone());
                self.cache.set(key.clone(), q);
                self.events.push((key.clone(), ev));
                proof {
                    assert(final(self).entries() =~= old(self).entries().insert(
                        key@,
                        old(self).entries()[key@].spec_complete_err(e),
                    ));
                }
                Err(e)
            },
        }
    }

    /// Forces a new fetch for an existing entry, bypassing staleness.
    ///
    /// The key must have an entry; a fetch already in flight is joined
    /// rather than doubled.  The returned plan is executed like one from
    /// `fetch_query`, with the outcome reported to `complete_query`.
    pub fn refetch_query(&mut self, key: &QueryKey, now: u64) -> (r: Result<FetchPlan, QueryError>)
        requires
            old(self).inv(),
        ensures
            final(self).inv(),
            final(self).options == old(self).options,
            ({
                let m = old(self).entries();
                let k = key@;
                if !m.contains_key(k) {
                    &&& r matches Err(e) && e matches QueryError::KeyNotFound(kn) && kn.key@
                        == k.0
                    &&& final(self).entries() == m
                    &&& final(self).events@ == old(self).events@
                } else if m[k].state is Loading {
                    &&& r matches Ok(p) && p is Join
                    &&& final(self).entries() == m
                    &&& final(self).events@ == old(self).events@
                } else {
                    &&& final(self).entries() == m.insert(k, m[k].spec_begin_fetch())
                    &&& r matches Ok(p) && p matches FetchPlan::Fetch { delays, store } && store
                        && delays@ == delays_of(retry_view(m[k].retry))
                    &&& final(self).events@ == old(self).events@.push(
                        (
                            *key,
                            QueryChangeEvent {
                                state: QueryState::Loading,
                                is_fetching: true,
                                value: m[k].last_value,
                            },
                        ),
                    )
                }
            }),
    {
        let in_flight = match self.cache.get(key) {
            Some(q) => q.is_fetching(),
            None => {
                return Err(QueryError::key_not_found(key.key().name().clone()));
            },
        };
        if in_flight {
            return Ok(FetchPlan::Join);
        }
        let mut q = self.cache.remove(key).unwrap();
        let ev = q.begin_fetch().unwrap();
        let delays = match &q.retry {
            Some(rt) => rt.get(),
            None => Vec::new(),
        };
        self.cache.set(key.clone(), q);
        self.events.push((key.clone(), ev));
        proof {
            assert(final(self).entries() =~= old(self).entries().insert(
                key@,
                old(self).entries()[key@].spec_begin_fetch(),
            ));
        }
        Ok(FetchPlan::Fetch { delays, store: true })
    }

    /// Fires the background refetch for the key if one is due at `now`.
    ///
    /// A tick on an entry whose fetch is already in flight starts
    /// nothing; an entry without a due refetch is left alone.  When the
    /// tick fires, the returned plan is executed like one from
    /// `fetch_query`, with the outcome reported to `complete_query` —
    /// which, on success, arms the next tick.
    pub fn poll_refetch(&mut self, key: &QueryKey, now: u64) -> (r: Option<FetchPlan>)
        requires
            old(self).inv(),
        ensures
            final(self).inv(),
            final(self).options == old(self).options,
            ({
                let m = old(self).entries();
                let k = key@;
                let due = m.contains_key(k) && (m[k].next_refetch matches Some(t) && now >= t)
                    && !(m[k].state is Loading);
                if due {
                    &&& final(self).entries() == m.insert(k, m[k].spec_begin_fetch())
                    &&& r matches Some(p) && p matches FetchPlan::Fetch { delays, store } && store
                        && delays@ == delays_of(retry_view(m[k].retry))
                    &&& final(self).events@ == old(self).events@.push(
                        (
                            *key,
                            QueryChangeEvent {
                                state: QueryState::Loading,
                                is_fetching: true,
                                value: m[k].last_value,
                            },
                        ),
                    )
                } else {
                    &&& r is None
                    &&& final(self).entries() == m
                    &&& final(self).events@ == old(self).events@
                }
            }),
    {
        let due = match self.cache.get(key) {
            Some(q) => q.refetch_due(now) && !q.is_fetching(),
            None => false,
        };
        if !due {
            return None;
        }
        let mut q = self.cache.remove(key).unwrap();
        let ev = q.begin_fetch().unwrap();
        let delays = match &q.retry {
            Some(rt) => rt.get(),
            None => Vec::new(),
        };
        self.cache.set(key.clone(), q);
        self.events.push((key.clone(), ev));
        proof {
            assert(final(self).entries() =~= old(self).entries().insert(
                key@,
                old(self).entries()[key@].spec_begin_fetch(),
            ));
        }
        Some(FetchPlan::Fetch { delays, store: true })
    }

    /// Hands over the logged state-change events, oldest first, and
    /// empties the log.
    pub fn take_events(&mut self) -> (r: Vec<(QueryKey, QueryChangeEvent)>)
        requires
            old(self).inv(),
        ensures
            final(self).inv(),
            final(self).options == old(self).options,
            final(self).entries() == old(self).entries(),
            r@ == old(self).events@,
            final(self).events@.len() == 0,
    {
        let mut out: Vec<(QueryKey, QueryChangeEvent)> = Vec::new();
        core::mem::swap(&mut out, &mut self.events);
        out
    }
}

/// Law: TTL correctness.
///
/// With a time-to-live `d` and a value resolved at `u`, the value is
/// fresh at every instant before `u + d` and expired at every instant
/// from `u + d` on.  Through the contract of `get_query_data` this makes
/// a read before the boundary return the cached value and a read at or
/// past it report `StaleValue`; through the contract of `fetch_query` a
/// request before the boundary is served the cached value without a
/// fetch being started.
pub proof fn lemma_ttl_boundary(q: Query, d: u64, u: u64, now: u64)
    requires
        q.cache_time == Some(d),
        q.updated_at == Some(u),
    ensures
        now < u + d ==> !q.expired_at(now),
        now >= u + d ==> q.expired_at(now),
{
}

/// Law: type-safe round trip.
///
/// After a value is written for a key carrying tag `ty` — the effect of
/// `set_query_data(key, ty, value, now)` on the store is
/// `insert(k, entry.spec_complete_ok(value, now))` — a read of the same
/// key at `ty` within the time-to-live finds exactly that value, so
/// `get_query_data` returns it; and a read of the key at any other tag
/// fails the key's tag test, so `get_query_data` returns a type
/// mismatch, never a value of the wrong type.
pub proof fn lemma_type_roundtrip(
    m: Map<(Seq<char>, u64), Query>,
    k: (Seq<char>, u64),
    ty: u64,
    other: u64,
    value: QueryValue,
    now: u64,
    later: u64,
)
    requires
        entries_ok(m),
        m.contains_key(k),
        k.1 == ty,
        other != ty,
        !m[k].spec_complete_ok(value, now).expired_at(later),
    ensures
        ({
            let m2 = m.insert(k, m[k].spec_complete_ok(value, now));
            &&& entries_ok(m2)
            &&& m2.contains_key(k)
            &&& m2[k].last_value == Some(value)
            &&& !m2[k].expired_at(later)
            &&& k.1 != other
        }),
{
    let m2 = m.insert(k, m[k].spec_complete_ok(value, now));
    assert forall|k2: (Seq<char>, u64)| #[trigger]
        m2.contains_key(k2) implies m2[k2].wf() && m2[k2].type_id == k2.1 by {
        if k2 != k {
            assert(m.contains_key(k2));
        }
    }
}

/// A builder for a `QueryClient`.
pub struct QueryClientBuilder {
    /// The default options collected so far.
    pub options: QueryOptions,
}

impl QueryClientBuilder {
    /// Constructs a builder with no defaults set.
    pub fn new() -> (r: QueryClientBuilder)
        ensures
            r.options.cache_time is None,
            r.options.refetch_time is None,
            r.options.retry is None,
    {
        QueryClientBuilder { options: QueryOptions::new() }
    }

    /// Sets the default time a query can be reused from cache, in
    /// milliseconds.
    pub fn cache_time(self, cache_time: u64) -> (r: QueryClientBuilder)
        ensures
            r.options.cache_time == Some(cache_time),
            r.options.refetch_time == self.options.refetch_time,
            r.options.retry == self.options.retry,
    {
        QueryClientBuilder { options: self.options.cache_time(cache_time) }
    }

    /// Sets the default interval at which data is refetched, in
    /// milliseconds.
    pub fn refetch_time(self, refetch_time: u64) -> (r: QueryClientBuilder)
        ensures
            r.options.cache_time == self.options.cache_time,
            r.options.refetch_time == Some(refetch_time),
            r.options.retry == self.options.retry,
    {
        QueryClientBuilder { options: self.options.refetch_time(refetch_time) }
    }

    /// Sets the default backoff schedule for retrying failed fetches.
    pub fn retry(self, retry: Retry) -> (r: QueryClientBuilder)
        ensures
            r.options.cache_time == self.options.cache_time,
            r.options.refetch_time == self.options.refetch_time,
            r.options.retry == Some(retry),
    {
        QueryClientBuilder { options: self.options.retry(retry) }
    }

    /// Builds a client over an empty linear-scan store.
    pub fn build(self) -> (r: QueryClient<VecCache>)
        ensures
            r.inv(),
            r.entries() == Map::<(Seq<char>, u64), Query>::empty(),
            r.options == self.options,
            r.events@.len() == 0,
    {
        QueryClient { cache: VecCache::new(), options: self.options, events: Vec::new() }
    }

    /// Builds a client over the given backend.
    pub fn build_with_cache<C: QueryCache>(self, cache: C) -> (r: QueryClient<C>)
        requires
            cache.inv(),
            entries_ok(cache.view()),
        ensures
            r.inv(),
            r.entries() == cache.view(),
            r.options == self.options,
            r.events@.len() == 0,
    {
        QueryClient { cache, options: self.options, events: Vec::new() }
    }
}

} // verus!

