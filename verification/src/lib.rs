//! A staleness cache: a small, fixed-layout building block that stores a
//! computed value together with the logical timestamp at which it was last
//! refreshed and a manual invalidation flag.
//!
//! The cache never reads an ambient clock; every operation takes the caller's
//! notion of "now" as an explicit argument, so freshness is a pure function of
//! the stored state and that argument.

pub mod cache;
pub mod decimal;

pub use cache::Cache;
pub use cache::CacheInvalidError;
