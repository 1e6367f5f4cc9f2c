//! Planning of the user-count history request.

use vstd::prelude::*;
use crate::clock::{accepts_unix_timestamp, representable};
use crate::database::models::BucketSize;

verus! {

/// Query of the history endpoint: an optional time range in Unix seconds and
/// the width of the buckets to group by.
pub struct HistoryQuery {
    pub from: Option<i64>,
    pub to: Option<i64>,
    pub bucket_size: BucketSize,
}

impl Default for HistoryQuery {
    fn default() -> (query: Self)
        ensures
            query.from is None,
            query.to is None,
            query.bucket_size == BucketSize::Day,
    {
        HistoryQuery { from: None, to: None, bucket_size: BucketSize::Day }
    }
}

/// How a history request is served.
#[derive(Debug, Clone, Copy, PartialEq, Eq, Structural)]
pub enum HistoryPlan {
    /// The whole history in day buckets, from the cache.
    CachedDays,
    /// The whole history in buckets of the given size, from the database.
    Buckets(BucketSize),
    /// Measurements from `start` (inclusive) to `end` (exclusive), Unix seconds.
    Range { start: i64, end: i64 },
}

/// Why a history request is refused (both are answered with 400 Bad Request).
#[derive(Debug, Clone, Copy, PartialEq, Eq, Structural)]
pub enum HistoryRejection {
    /// Only one end of the range was given.
    MissingBound,
    /// An end of the range lies outside the instants that can be represented.
    OutOfRange,
}

/// The plan for a query, or the reason it is refused.
pub open spec fn history_plan(query: HistoryQuery) -> Result<HistoryPlan, HistoryRejection> {
    match (query.from, query.to) {
        (None, None) => if query.bucket_size == BucketSize::Day {
            Ok(HistoryPlan::CachedDays)
        } else {
            Ok(HistoryPlan::Buckets(query.bucket_size))
        },
        (Some(start), Some(end)) => if representable(start as int) && representable(end as int) {
            Ok(HistoryPlan::Range { start, end })
        } else {
            Err(HistoryRejection::OutOfRange)
        },
        _ => Err(HistoryRejection::MissingBound),
    }
}

impl HistoryQuery {
    /// Decides how the request is served: without a range, the day-bucketed
    /// history comes from the cache and other bucket sizes from the database;
    /// a range needs both ends, each a timestamp `time` accepts.
    pub fn plan(&self) -> (plan: Result<HistoryPlan, HistoryRejection>)
        ensures
            plan == history_plan(*self),
    {
        match (self.from, self.to) {
            (None, None) => match self.bucket_size {
                BucketSize::Day => Ok(HistoryPlan::CachedDays),
                other => Ok(HistoryPlan::Buckets(other)),
            },
            (Some(start), Some(end)) => {
                if !accepts_unix_timestamp(start) {
                    return Err(HistoryRejection::OutOfRange);
                }
                if !accepts_unix_timestamp(end) {
                    return Err(HistoryRejection::OutOfRange);
                }
                Ok(HistoryPlan::Range { start, end })
            },
            _ => Err(HistoryRejection::MissingBound),
        }
    }
}

/// A request is refused exactly when it gives one end of the range only, or
/// an end that cannot be represented; a range that is served is served as given.
pub proof fn law_history_refusals(query: HistoryQuery)
    ensures
        (history_plan(query) == Err::<HistoryPlan, HistoryRejection>(HistoryRejection::MissingBound))
            <==> (query.from is Some != query.to is Some),
        history_plan(query) matches Ok(HistoryPlan::Range { start, end }) ==> (
            query.from == Some(start) && query.to == Some(end)
        ),
        (query.from is None && query.to is None) ==> history_plan(query) is Ok,
{
}

/// Without a range, a request is served from the cached day history exactly
/// when it asks for day buckets; for any other bucket size it is served from
/// the database in buckets of that same size. A request without a range never
/// turns into a range, and one with a range is never served from the cache.
pub proof fn law_history_without_range(query: HistoryQuery, size: BucketSize)
    ensures
        (query.from is None && query.to is None) ==> (
            (history_plan(query) == Ok::<HistoryPlan, HistoryRejection>(HistoryPlan::CachedDays))
                <==> query.bucket_size == BucketSize::Day),
        (query.from is None && query.to is None && query.bucket_size != BucketSize::Day) ==>
            history_plan(query) == Ok::<HistoryPlan, HistoryRejection>(
                HistoryPlan::Buckets(query.bucket_size)),
        history_plan(query) matches Ok(HistoryPlan::Buckets(b)) ==> (
            b == query.bucket_size && b != BucketSize::Day),
        history_plan(query) matches Ok(HistoryPlan::CachedDays) ==> (
            query.from is None && query.to is None),
        history_plan(query) matches Ok(HistoryPlan::Range { .. }) ==> (
            query.from is Some && query.to is Some),
        history_plan(HistoryQuery { from: None, to: None, bucket_size: size })
            == (if size == BucketSize::Day {
            Ok::<HistoryPlan, HistoryRejection>(HistoryPlan::CachedDays)
        } else {
            Ok::<HistoryPlan, HistoryRejection>(HistoryPlan::Buckets(size))
        }),
{
}

} // verus!
