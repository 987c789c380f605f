//! Paged data, kept as a placeholder.

use vstd::prelude::*;

verus! {

/// The pages accumulated by a paginated query.
///
/// Pagination is not part of the caching engine; this type only holds the
/// pages a paginated fetch would collect.
#[derive(Debug)]
pub struct InfiniteData<T> {
    /// The pages fetched so far, in order.
    pub pages: Vec<T>,
}

impl<T> InfiniteData<T> {
    /// Constructs an empty collection of pages.
    pub fn new() -> (r: InfiniteData<T>)
        ensures
            r.pages@ == Seq::<T>::empty(),
    {
        InfiniteData { pages: Vec::new() }
    }
}

} // verus!
