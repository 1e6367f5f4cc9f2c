//! Decision logic and data shapes of a score-statistics service: UTC
//! scheduling of cache expiry, the cache read/refresh/write protocol, the
//! table of cached entries, request planning for the history endpoint and the
//! conversions between database rows and API responses.

pub mod clock;
pub mod database;
pub mod api;
pub mod cache;
pub mod state;
