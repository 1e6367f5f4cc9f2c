use ushio::api::changelogs::{HistoryPlan, HistoryQuery, HistoryRejection};
use ushio::api::{entries_from_buckets, UserIdDistributionEntry};
use ushio::clock::{EARLIEST_UNIX, LATEST_UNIX};
use ushio::database::impls::BucketedResponse;
use ushio::database::models::BucketSize;

fn row(label: &str, stable: i64, lazer: i64, both: i64) -> BucketedResponse {
    BucketedResponse { bucket_floor: label.to_string(), stable, lazer, both }
}

#[test]
fn entry_from_bucket_row() {
    let entry = UserIdDistributionEntry::from(row("2M - 4M", 10, 20, 5));
    assert_eq!((entry.stable, entry.lazer, entry.both), (10, 20, 5));
    assert_eq!(entry.bucket, "2M - 4M");
    let wide = UserIdDistributionEntry::from(row("0M - 2M", 4294967296 + 3, -1, 0));
    assert_eq!((wide.stable, wide.lazer, wide.both), (3, u32::MAX, 0));
}

#[test]
fn entries_keep_row_order() {
    let entries = entries_from_buckets(vec![row("0M - 2M", 1, 2, 3), row("2M - 4M", 4, 5, 6)]);
    assert_eq!(entries.len(), 2);
    assert_eq!(entries[0].bucket, "0M - 2M");
    assert_eq!((entries[1].stable, entries[1].lazer, entries[1].both), (4, 5, 6));
    assert!(entries_from_buckets(vec![]).is_empty());
}

#[test]
fn history_without_range() {
    assert_eq!(HistoryQuery::default().plan(), Ok(HistoryPlan::CachedDays));
    let query = HistoryQuery { from: None, to: None, bucket_size: BucketSize::Hour };
    assert_eq!(query.plan(), Ok(HistoryPlan::Buckets(BucketSize::Hour)));
}

#[test]
fn history_with_one_bound_is_refused() {
    let query = HistoryQuery { from: Some(1), to: None, bucket_size: BucketSize::Day };
    assert_eq!(query.plan(), Err(HistoryRejection::MissingBound));
    let query = HistoryQuery { from: None, to: Some(1), bucket_size: BucketSize::Week };
    assert_eq!(query.plan(), Err(HistoryRejection::MissingBound));
}

#[test]
fn history_range() {
    let query = HistoryQuery { from: Some(1700000000), to: Some(1782675578), bucket_size: BucketSize::Day };
    assert_eq!(query.plan(), Ok(HistoryPlan::Range { start: 1700000000, end: 1782675578 }));
    let query = HistoryQuery { from: Some(EARLIEST_UNIX), to: Some(LATEST_UNIX), bucket_size: BucketSize::Month };
    assert_eq!(query.plan(), Ok(HistoryPlan::Range { start: EARLIEST_UNIX, end: LATEST_UNIX }));
}

#[test]
fn history_out_of_range_is_refused() {
    let query = HistoryQuery { from: Some(EARLIEST_UNIX - 1), to: Some(0), bucket_size: BucketSize::Day };
    assert_eq!(query.plan(), Err(HistoryRejection::OutOfRange));
    let query = HistoryQuery { from: Some(0), to: Some(LATEST_UNIX + 1), bucket_size: BucketSize::Day };
    assert_eq!(query.plan(), Err(HistoryRejection::OutOfRange));
    let query = HistoryQuery { from: Some(0), to: Some(i64::MAX), bucket_size: BucketSize::Day };
    assert_eq!(query.plan(), Err(HistoryRejection::OutOfRange));
}
