//! The type-erased values stored by the cache.

use vstd::prelude::*;

verus! {

/// A cached value.
///
/// The store is heterogeneous: one client caches values of many types.
/// A value is therefore a tagged union over a closed set of kinds.  The
/// engine never inspects a value: it only moves values between the caller
/// and the store, guarded by the numeric type tag recorded in the entry
/// (see [`crate::query::Query`]).  A caller that needs a richer type
/// encodes it into one of these kinds and keeps the association between
/// its type and its tag.
#[derive(Debug, PartialEq, Eq)]
pub enum QueryValue {
    /// A boolean.
    Bool(bool),
    /// A signed integer.
    Int(i64),
    /// A text value.
    Text(String),
}

impl Clone for QueryValue {
    fn clone(&self) -> (r: Self)
        ensures
            r == *self,
    {
        match self {
            QueryValue::Bool(b) => QueryValue::Bool(*b),
            QueryValue::Int(i) => QueryValue::Int(*i),
            QueryValue::Text(s) => QueryValue::Text(s.clone()),
        }
    }
}

} // verus!
