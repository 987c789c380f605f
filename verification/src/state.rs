//! The observable state of a query.

use vstd::prelude::*;
use crate::error::Error;

verus! {

/// The state of a query entry.
///
/// For a given key the states move strictly linearly:
/// `Idle` to `Loading` to `Ready` or `Failed`, and from either of those
/// back to `Loading` when a new fetch starts.
#[derive(Debug, PartialEq, Eq)]
pub enum QueryState {
    /// The query is stopped or has not started.
    Idle,
    /// The query is loading its data: a fetch is in flight.
    Loading,
    /// The last fetch resolved successfully.
    Ready,
    /// The last fetch failed with the given error.
    Failed(Error),
}

impl QueryState {
    /// Returns `true` if the query is stopped or has not started.
    pub fn is_idle(&self) -> (r: bool)
        ensures
            r == (*self is Idle),
    {
        matches!(self, QueryState::Idle)
    }

    /// Returns `true` if the query is loading.
    pub fn is_loading(&self) -> (r: bool)
        ensures
            r == (*self is Loading),
    {
        matches!(self, QueryState::Loading)
    }

    /// Returns `true` if the query has loaded its data.
    pub fn is_ready(&self) -> (r: bool)
        ensures
            r == (*self is Ready),
    {
        matches!(self, QueryState::Ready)
    }

    /// Returns `true` if the query failed to load its data.
    pub fn is_failed(&self) -> (r: bool)
        ensures
            r == (*self is Failed),
    {
        matches!(self, QueryState::Failed(_))
    }
}

impl Clone for QueryState {
    fn clone(&self) -> (r: Self)
        ensures
            r == *self,
    {
        match self {
            QueryState::Idle => QueryState::Idle,
            QueryState::Loading => QueryState::Loading,
            QueryState::Ready => QueryState::Ready,
            QueryState::Failed(e) => QueryState::Failed(e.clone()),
        }
    }
}

} // verus!
