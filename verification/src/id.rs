//! Unique identifiers for observers and handles.

use vstd::prelude::*;

verus! {

/// A unique id, drawn from a monotonically increasing counter.
///
/// The counter lives in the value itself rather than in global state:
/// `first` yields the initial id and `next` the one after a given id, so
/// ids handed out along one chain are pairwise distinct.
#[derive(Debug, Clone, Copy, PartialEq, Eq, Structural)]
pub struct Id {
    /// The numeric value of the id.
    pub value: u64,
}

impl Id {
    /// The first id of a chain.
    pub fn first() -> (r: Id)
        ensures
            r.value == 1,
    {
        Id { value: 1 }
    }

    /// The id after this one.
    pub fn next(&self) -> (r: Id)
        requires
            self.value < u64::MAX,
        ensures
            r.value == self.value + 1,
    {
        Id { value: self.value + 1 }
    }
}

} // verus!
