//! Shapes of the HTTP API's responses and the conversions that build them.

pub mod changelogs;

use vstd::prelude::*;
use crate::database::impls::BucketedResponse;

verus! {

/// Length of the period an aggregate covers.
#[derive(Debug, Clone, Copy, PartialEq, Eq, Structural)]
pub enum BucketTimeRange {
    Day,
    Week,
    Month,
}

/// Distinct users (or scores) of one user-id bucket, per client.
pub struct UserIdDistributionEntry {
    pub stable: u32,
    pub lazer: u32,
    pub both: u32,
    pub bucket: String,
}

/// The entry for a bucket row: each count truncated to 32 bits, the label kept.
pub open spec fn entry_of(value: BucketedResponse) -> UserIdDistributionEntry {
    UserIdDistributionEntry {
        stable: value.stable as u32,
        lazer: value.lazer as u32,
        both: value.both as u32,
        bucket: value.bucket_floor,
    }
}

impl From<BucketedResponse> for UserIdDistributionEntry {
    fn from(value: BucketedResponse) -> (entry: Self) {
        UserIdDistributionEntry {
            stable: value.stable as u32,
            lazer: value.lazer as u32,
            both: value.both as u32,
            bucket: value.bucket_floor,
        }
    }
}

impl vstd::std_specs::convert::FromSpecImpl<BucketedResponse> for UserIdDistributionEntry {
    open spec fn obeys_from_spec() -> bool {
        true
    }

    open spec fn from_spec(v: BucketedResponse) -> Self {
        entry_of(v)
    }
}

/// The entry for one bucket row, read by reference.
fn entry_of_row(row: &BucketedResponse) -> (entry: UserIdDistributionEntry)
    ensures
        entry == entry_of(*row),
{
    UserIdDistributionEntry {
        stable: row.stable as u32,
        lazer: row.lazer as u32,
        both: row.both as u32,
        bucket: row.bucket_floor.clone(),
    }
}

/// The entries for a list of bucket rows, in the same order.
pub fn entries_from_buckets(rows: Vec<BucketedResponse>) -> (entries: Vec<UserIdDistributionEntry>)
    ensures
        entries@.len() == rows@.len(),
        forall|i: int| 0 <= i < rows@.len() ==> #[trigger] entries@[i] == entry_of(rows@[i]),
{
    let mut entries: Vec<UserIdDistributionEntry> = Vec::new();
    let mut i: usize = 0;
    while i < rows.len()
        invariant
            i <= rows@.len(),
            entries@.len() == i,
            forall|j: int| 0 <= j < i ==> #[trigger] entries@[j] == entry_of(rows@[j]),
        decreases rows@.len() - i,
    {
        entries.push(entry_of_row(&rows[i]));
        i = i + 1;
    }
    entries
}

/// Counts that fit in 32 bits come through a bucket row's conversion
/// unchanged, and the bucket label is kept as it is.
pub proof fn law_entry_keeps_counts(row: BucketedResponse)
    requires
        0 <= row.stable <= u32::MAX,
        0 <= row.lazer <= u32::MAX,
        0 <= row.both <= u32::MAX,
    ensures
        entry_of(row).stable == row.stable,
        entry_of(row).lazer == row.lazer,
        entry_of(row).both == row.both,
        entry_of(row).bucket == row.bucket_floor,
{
}

} // verus!
