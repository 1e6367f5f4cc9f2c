//! Result rows of the score queries.

use vstd::prelude::*;

verus! {

/// Number of scores per client in a time range.
pub struct ScoreDistributionResponse {
    pub stable: i64,
    pub lazer: i64,
}

/// Number of distinct users in one user-id bucket, split by the clients they
/// played on: only stable, only lazer, or both.
pub struct BucketedResponse {
    /// Label of the bucket, such as `"2M - 4M"`.
    pub bucket_floor: String,
    pub stable: i64,
    pub lazer: i64,
    pub both: i64,
}

/// Granularity of a time period.
#[derive(Debug, Clone, Copy, PartialEq, Eq, Structural)]
pub enum TimePeriod {
    Hour,
    Day,
    Week,
}

} // verus!
