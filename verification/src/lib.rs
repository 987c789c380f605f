//! A client-side asynchronous query cache.
//!
//! The crate models the engine of a query cache: named, typed units of
//! remote data (`QueryKey`) are fetched through a caller-supplied fetch
//! operation, stored with a time-to-live, retried on failure with a
//! caller-supplied backoff schedule, and optionally refetched on a fixed
//! interval.  The engine itself is synchronous and fully verified: time
//! enters as an explicit millisecond value, and the asynchronous steps of
//! a fetch (running the fetch operation, sleeping between retries) are
//! driven by the embedding, which feeds their outcomes back into the
//! engine through `FetchRun` and `QueryClient::complete_query`.

pub mod cache;
pub mod cached;
pub mod client;
pub mod error;
pub mod fetcher;
pub mod id;
pub mod infinite_data;
pub mod key;
pub mod observer;
pub mod options;
pub mod query;
pub mod retry;
pub mod state;
pub mod value;

pub use cache::QueryCache;
pub use cache::VecCache;
pub use cached::Cached;
pub use client::QueryClient;
pub use client::QueryClientBuilder;
pub use error::Error;
pub use error::KeyNotFoundError;
pub use error::QueryError;
pub use error::TypeMismatchError;
pub use fetcher::FetchRun;
pub use fetcher::FetchStep;
pub use id::Id;
pub use infinite_data::InfiniteData;
pub use key::Key;
pub use key::QueryKey;
pub use key::TypeNameCache;
pub use observer::QueryChangeEvent;
pub use observer::QueryObserver;
pub use options::QueryOptions;
pub use query::FetchPlan;
pub use query::Query;
pub use retry::Retry;
pub use state::QueryState;
pub use value::QueryValue;
