//! A memo for the outcome of a shared computation.

use vstd::prelude::*;

verus! {

/// The memoized state of a computation that several consumers share.
///
/// In an asynchronous embedding this is the bookkeeping behind a shared
/// future: the computation resolves at most once, every consumer observes
/// the same outcome, and late joiners read the memoized value instead of
/// running the computation again.  The embedding drives the computation
/// and records its completion here through [`Cached::resolve`].
#[derive(Debug)]
pub struct Cached<T> {
    /// The last value the computation produced, if any.
    pub value: Option<T>,
    /// Whether the computation has resolved.
    pub resolved: bool,
}

impl<T> Cached<T> {
    /// Constructs an empty memo: nothing cached, nothing resolved.
    pub fn new() -> (r: Cached<T>)
        ensures
            r.value is None,
            !r.resolved,
    {
        Cached { value: None, resolved: false }
    }

    /// Constructs a memo seeded with an initial value.
    ///
    /// The seed is served to readers until the computation itself
    /// resolves; the memo still counts as unresolved.
    pub fn with_initial(initial: Option<T>) -> (r: Cached<T>)
        ensures
            r.value == initial,
            !r.resolved,
    {
        Cached { value: initial, resolved: false }
    }

    /// Returns the last value, if any.
    pub fn last_value(&self) -> (r: Option<&T>)
        ensures
            r is Some <==> self.value is Some,
            r matches Some(v) ==> self.value matches Some(w) && *v == w,
    {
        self.value.as_ref()
    }

    /// Returns `true` if the computation has resolved.
    pub fn is_resolved(&self) -> (r: bool)
        ensures
            r == self.resolved,
    {
        self.resolved
    }

    /// Records the outcome of the computation.
    pub fn resolve(&mut self, value: T)
        ensures
            final(self).value == Some(value),
            final(self).resolved,
    {
        self.value = Some(value);
        self.resolved = true;
    }
}

} // verus!
