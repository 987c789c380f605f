//! Events emitted on every state transition of a query.

use vstd::prelude::*;
use crate::cache::QueryCache;
use crate::client::fetch_query_post;
use crate::client::QueryClient;
use crate::key::QueryKey;
use crate::options::QueryOptions;
use crate::query::FetchPlan;
use crate::state::QueryState;
use crate::value::QueryValue;

verus! {

/// An event describing one state transition of a query entry.
///
/// The engine appends exactly one event per transition to the client's
/// event log, in transition order; an observing layer drains the log and
/// invokes its callbacks, so each callback fires at least once per
/// transition and never sees two transitions of one entry out of order.
#[derive(Debug, PartialEq, Eq)]
pub struct QueryChangeEvent {
    /// The state the query moved to.
    pub state: QueryState,
    /// Whether a fetch is in flight after the transition.
    pub is_fetching: bool,
    /// The value visible to readers after the transition.
    pub value: Option<QueryValue>,
}

impl Clone for QueryChangeEvent {
    fn clone(&self) -> (r: Self)
        ensures
            r == *self,
    {
        QueryChangeEvent {
            state: self.state.clone(),
            is_fetching: self.is_fetching,
            value: match &self.value {
                Some(v) => Some(v.clone()),
                None => None,
            },
        }
    }
}

/// A tracker for the state of one query.
///
/// An observer remembers a key and the options its requests carry, reads
/// the entry's state through a client, and requests fetches with
/// [`QueryObserver::observe`].  The per-transition events land in the
/// client's log; an observing layer drains them with
/// [`crate::client::QueryClient::take_events`] and invokes its callbacks.
#[derive(Debug)]
pub struct QueryObserver {
    /// The key being observed.
    pub key: QueryKey,
    /// The options this observer's fetch requests carry.
    pub options: Option<QueryOptions>,
}

impl QueryObserver {
    /// Constructs an observer for the given key.
    pub fn new(key: QueryKey) -> (r: QueryObserver)
        ensures
            r.key == key,
            r.options is None,
    {
        QueryObserver { key, options: None }
    }

    /// Constructs an observer for the given key and options.
    pub fn with_options(key: QueryKey, options: Option<QueryOptions>) -> (r: QueryObserver)
        ensures
            r.key == key,
            r.options == options,
    {
        QueryObserver { key, options }
    }

    /// Returns `true` if a fetch for the observed key is in flight.
    pub fn is_fetching<C: QueryCache>(&self, client: &QueryClient<C>) -> (r: bool)
        requires
            client.inv(),
        ensures
            r == (client.entries().contains_key(self.key@) && client.entries()[self.key@].state
                is Loading),
    {
        client.is_fetching(&self.key)
    }

    /// Returns `true` if the observed entry reports itself stale.
    pub fn is_stale<C: QueryCache>(&self, client: &QueryClient<C>, now: u64) -> (r: bool)
        requires
            client.inv(),
        ensures
            r == (client.entries().contains_key(self.key@) && client.entries()[
                self.key@
            ].stale_at(now)),
    {
        client.is_stale(&self.key, now)
    }

    /// Returns the last value resolved for the observed key, if any.
    pub fn last_value<'a, C: QueryCache>(&self, client: &'a QueryClient<C>) -> (r: Option<
        &'a QueryValue,
    >)
        requires
            client.inv(),
        ensures
            r is Some <==> (client.entries().contains_key(self.key@) && client.entries()[
                self.key@
            ].last_value is Some),
            r matches Some(v) ==> client.entries()[self.key@].last_value == Some(*v),
    {
        match client.get_query(&self.key) {
            Some(q) => q.last_value(),
            None => None,
        }
    }

    /// Returns the state last observed for the key, if an entry exists.
    pub fn last_state<C: QueryCache>(&self, client: &QueryClient<C>) -> (r: Option<QueryState>)
        requires
            client.inv(),
        ensures
            client.entries().contains_key(self.key@) ==> r == Some(
                client.entries()[self.key@].state,
            ),
            !client.entries().contains_key(self.key@) ==> r is None,
    {
        match client.get_query(&self.key) {
            Some(q) => Some(q.state()),
            None => None,
        }
    }

    /// Requests a fetch for the observed key, with this observer's
    /// options filling in where the client has no default.
    ///
    /// See [`fetch_query_post`] for the protocol the answer follows.
    pub fn observe<C: QueryCache>(&self, client: &mut QueryClient<C>, now: u64) -> (plan:
        FetchPlan)
        requires
            old(client).inv(),
        ensures
            final(client).inv(),
            fetch_query_post(
                *old(client),
                *final(client),
                self.key,
                match self.options {
                    Some(o) => o.cache_time,
                    None => None,
                },
                match self.options {
                    Some(o) => o.refetch_time,
                    None => None,
                },
                match self.options {
                    Some(o) => match o.retry {
                        Some(rt) => Some(rt@),
                        None => None,
                    },
                    None => None,
                },
                now,
                plan,
            ),
    {
        client.fetch_query_with_options(&self.key, self.options.as_ref(), now)
    }
}

} // verus!
