//! The table of cached entries the service keeps: each entry's key and
//! lifetime, and which entry serves which aggregate.

use vstd::prelude::*;
use crate::api::BucketTimeRange;
use crate::cache::Ttl;
use crate::clock::{
    law_next_1am_is_tomorrow_one_oclock, next_1am, next_1am_answer, next_1am_from, next_1am_spec, representable,
    schedulable,
};

verus! {

/// The entries kept in the cache.
#[derive(Debug, Clone, Copy, PartialEq, Eq, Structural)]
pub enum CacheEntry {
    /// The latest measurement.
    LatestChangelog,
    /// The measurement with the most lazer users.
    PeakUserCount,
    /// The measurement with the highest lazer share.
    PeakUserRatio,
    /// The busiest measurement near the highest lazer share.
    PeakUserPercentile,
    /// Measurements of the past day.
    DayUserGraph,
    /// History of both clients in day buckets.
    BothClientsHistoryGraph,
    /// Complete history in day buckets.
    CompleteHistoryGraph,
    /// Distinct users per user-id bucket over a day.
    DailyAggregate,
    /// Distinct users per user-id bucket over a week.
    WeeklyAggregate,
    /// Distinct users per user-id bucket over a month.
    MonthlyAggregate,
    /// Scores per user-id bucket over a day.
    DailyScores,
    /// Scores per user-id bucket over a week.
    WeeklyScores,
    /// Scores per user-id bucket over a month.
    MonthlyScores,
    /// Daily aggregates of all scores, per ruleset and client.
    DailyHistoricGraphs,
}

impl CacheEntry {
    /// The key the entry is stored under.
    pub open spec fn key_spec(self) -> Seq<char> {
        match self {
            CacheEntry::LatestChangelog => "athena:changelogs:changelog:latest"@,
            CacheEntry::PeakUserCount => "athena:changelogs:peak:users"@,
            CacheEntry::PeakUserRatio => "athena:changelogs:peak:ratio"@,
            CacheEntry::PeakUserPercentile => "athena:changelogs:peak:percentile"@,
            CacheEntry::DayUserGraph => "athena:changelogs:graph:day"@,
            CacheEntry::BothClientsHistoryGraph => "athena:changelogs:graph:history"@,
            CacheEntry::CompleteHistoryGraph => "athena:changelogs:graph:history:complete"@,
            CacheEntry::DailyAggregate => "athena:unique_users_by_id:daily"@,
            CacheEntry::WeeklyAggregate => "athena:unique_users_by_id:weekly"@,
            CacheEntry::MonthlyAggregate => "athena:unique_users_by_id:monthly"@,
            CacheEntry::DailyScores => "athena:unique_scores:daily"@,
            CacheEntry::WeeklyScores => "athena:unique_scores:weekly"@,
            CacheEntry::MonthlyScores => "athena:unique_scores:monthly"@,
            CacheEntry::DailyHistoricGraphs => "athena:daily_graph"@,
        }
    }

    /// The entry's lifetime when written at Unix time `now`; only the daily
    /// graphs depend on it, living until 01:00 UTC of the next day.
    pub open spec fn ttl_spec(self, now: int) -> Ttl {
        match self {
            CacheEntry::LatestChangelog => Ttl::Seconds(60),
            CacheEntry::PeakUserCount => Ttl::Seconds(300),
            CacheEntry::PeakUserRatio => Ttl::Seconds(300),
            CacheEntry::PeakUserPercentile => Ttl::Seconds(300),
            CacheEntry::DayUserGraph => Ttl::Seconds(300),
            CacheEntry::BothClientsHistoryGraph => Ttl::Seconds(300),
            CacheEntry::CompleteHistoryGraph => Ttl::Seconds(86400),
            CacheEntry::DailyAggregate => Ttl::Seconds(86400),
            CacheEntry::WeeklyAggregate => Ttl::Seconds(86400),
            CacheEntry::MonthlyAggregate => Ttl::Seconds(604800),
            CacheEntry::DailyScores => Ttl::Seconds(86400),
            CacheEntry::WeeklyScores => Ttl::Seconds(86400),
            CacheEntry::MonthlyScores => Ttl::Seconds(604800),
            CacheEntry::DailyHistoricGraphs => Ttl::Until(next_1am_spec(now) as i64),
        }
    }

    /// Whether the entry's lifetime depends on the time it is written.
    pub open spec fn clock_dependent(self) -> bool {
        self == CacheEntry::DailyHistoricGraphs
    }

    /// The key the entry is stored under.
    pub fn key(self) -> (key: &'static str)
        ensures
            key@ == self.key_spec(),
    {
        match self {
            CacheEntry::LatestChangelog => "athena:changelogs:changelog:latest",
            CacheEntry::PeakUserCount => "athena:changelogs:peak:users",
            CacheEntry::PeakUserRatio => "athena:changelogs:peak:ratio",
            CacheEntry::PeakUserPercentile => "athena:changelogs:peak:percentile",
            CacheEntry::DayUserGraph => "athena:changelogs:graph:day",
            CacheEntry::BothClientsHistoryGraph => "athena:changelogs:graph:history",
            CacheEntry::CompleteHistoryGraph => "athena:changelogs:graph:history:complete",
            CacheEntry::DailyAggregate => "athena:unique_users_by_id:daily",
            CacheEntry::WeeklyAggregate => "athena:unique_users_by_id:weekly",
            CacheEntry::MonthlyAggregate => "athena:unique_users_by_id:monthly",
            CacheEntry::DailyScores => "athena:unique_scores:daily",
            CacheEntry::WeeklyScores => "athena:unique_scores:weekly",
            CacheEntry::MonthlyScores => "athena:unique_scores:monthly",
            CacheEntry::DailyHistoricGraphs => "athena:daily_graph",
        }
    }

    /// The entry's lifetime when written at Unix time `now`.
    pub fn ttl_at(self, now: i64) -> (ttl: Ttl)
        requires
            self.clock_dependent() ==> schedulable(now as int),
        ensures
            ttl == self.ttl_spec(now as int),
    {
        match self {
            CacheEntry::LatestChangelog => Ttl::Seconds(60),
            CacheEntry::PeakUserCount => Ttl::Seconds(300),
            CacheEntry::PeakUserRatio => Ttl::Seconds(300),
            CacheEntry::PeakUserPercentile => Ttl::Seconds(300),
            CacheEntry::DayUserGraph => Ttl::Seconds(300),
            CacheEntry::BothClientsHistoryGraph => Ttl::Seconds(300),
            CacheEntry::CompleteHistoryGraph => Ttl::Seconds(86400),
            CacheEntry::DailyAggregate => Ttl::Seconds(86400),
            CacheEntry::WeeklyAggregate => Ttl::Seconds(86400),
            CacheEntry::MonthlyAggregate => Ttl::Seconds(604800),
            CacheEntry::DailyScores => Ttl::Seconds(86400),
            CacheEntry::WeeklyScores => Ttl::Seconds(86400),
            CacheEntry::MonthlyScores => Ttl::Seconds(604800),
            CacheEntry::DailyHistoricGraphs => Ttl::Until(next_1am_from(now)),
        }
    }

    /// The entry's lifetime when written now, by the system clock. Entries
    /// with a fixed lifetime always have one; the daily graphs live until
    /// 01:00 UTC of the next day, and have none when the clock stands on the
    /// last representable day, where no next day exists.
    pub fn ttl(self) -> (ttl: Option<Ttl>)
        ensures
            !self.clock_dependent() ==> ttl == Some(self.ttl_spec(0)),
            self.clock_dependent() ==> (ttl is None || (ttl matches Some(Ttl::Until(when)) && (
                exists|now: int| schedulable(now) && when == next_1am_spec(now)))),
            self.clock_dependent() ==> exists|now: int|
                #![trigger self.ttl_spec(now)]
                representable(now) && (ttl is Some <==> schedulable(now)) && (ttl matches Some(t)
                    ==> t == self.ttl_spec(now)),
    {
        if self == CacheEntry::DailyHistoricGraphs {
            let next: Option<i64> = next_1am();
            let ttl: Option<Ttl> = match next {
                Some(when) => Some(Ttl::Until(when)),
                None => None,
            };
            proof {
                let clock: int = choose|now: int| #[trigger] next_1am_answer(now, next);
                if next is Some {
                    law_next_1am_is_tomorrow_one_oclock(clock);
                }
                assert(ttl matches Some(t) ==> t == self.ttl_spec(clock));
            }
            ttl
        } else {
            Some(self.ttl_at(0))
        }
    }

    /// The entry holding distinct users per bucket over the given period.
    pub open spec fn users_entry(range: BucketTimeRange) -> CacheEntry {
        match range {
            BucketTimeRange::Day => CacheEntry::DailyAggregate,
            BucketTimeRange::Week => CacheEntry::WeeklyAggregate,
            BucketTimeRange::Month => CacheEntry::MonthlyAggregate,
        }
    }

    /// The entry holding scores per bucket over the given period.
    pub open spec fn scores_entry(range: BucketTimeRange) -> CacheEntry {
        match range {
            BucketTimeRange::Day => CacheEntry::DailyScores,
            BucketTimeRange::Week => CacheEntry::WeeklyScores,
            BucketTimeRange::Month => CacheEntry::MonthlyScores,
        }
    }

    /// The entry holding distinct users per bucket over the given period.
    pub fn unique_users(range: BucketTimeRange) -> (entry: CacheEntry)
        ensures
            entry == CacheEntry::users_entry(range),
    {
        match range {
            BucketTimeRange::Day => CacheEntry::DailyAggregate,
            BucketTimeRange::Week => CacheEntry::WeeklyAggregate,
            BucketTimeRange::Month => CacheEntry::MonthlyAggregate,
        }
    }

    /// The entry holding scores per bucket over the given period.
    pub fn unique_scores(range: BucketTimeRange) -> (entry: CacheEntry)
        ensures
            entry == CacheEntry::scores_entry(range),
    {
        match range {
            BucketTimeRange::Day => CacheEntry::DailyScores,
            BucketTimeRange::Week => CacheEntry::WeeklyScores,
            BucketTimeRange::Month => CacheEntry::MonthlyScores,
        }
    }
}

/// Length of an entry's key and its third character from the end, which
/// together tell the keys apart.
spec fn key_signature(entry: CacheEntry) -> (int, char) {
    match entry {
        CacheEntry::LatestChangelog => (34, 'e'),
        CacheEntry::PeakUserCount => (28, 'e'),
        CacheEntry::PeakUserRatio => (28, 't'),
        CacheEntry::PeakUserPercentile => (33, 'i'),
        CacheEntry::DayUserGraph => (27, 'd'),
        CacheEntry::BothClientsHistoryGraph => (31, 'o'),
        CacheEntry::CompleteHistoryGraph => (40, 'e'),
        CacheEntry::DailyAggregate => (31, 'i'),
        CacheEntry::WeeklyAggregate => (32, 'k'),
        CacheEntry::MonthlyAggregate => (33, 'h'),
        CacheEntry::DailyScores => (26, 'i'),
        CacheEntry::WeeklyScores => (27, 'k'),
        CacheEntry::MonthlyScores => (28, 'h'),
        CacheEntry::DailyHistoricGraphs => (18, 'a'),
    }
}

proof fn lemma_key_signature(entry: CacheEntry)
    ensures
        entry.key_spec().len() == key_signature(entry).0,
        entry.key_spec()[key_signature(entry).0 - 3] == key_signature(entry).1,
{
    match entry {
        CacheEntry::LatestChangelog => reveal_strlit("athena:changelogs:changelog:latest"),
        CacheEntry::PeakUserCount => reveal_strlit("athena:changelogs:peak:users"),
        CacheEntry::PeakUserRatio => reveal_strlit("athena:changelogs:peak:ratio"),
        CacheEntry::PeakUserPercentile => reveal_strlit("athena:changelogs:peak:percentile"),
        CacheEntry::DayUserGraph => reveal_strlit("athena:changelogs:graph:day"),
        CacheEntry::BothClientsHistoryGraph => reveal_strlit("athena:changelogs:graph:history"),
        CacheEntry::CompleteHistoryGraph => reveal_strlit(
            "athena:changelogs:graph:history:complete",
        ),
        CacheEntry::DailyAggregate => reveal_strlit("athena:unique_users_by_id:daily"),
        CacheEntry::WeeklyAggregate => reveal_strlit("athena:unique_users_by_id:weekly"),
        CacheEntry::MonthlyAggregate => reveal_strlit("athena:unique_users_by_id:monthly"),
        CacheEntry::DailyScores => reveal_strlit("athena:unique_scores:daily"),
        CacheEntry::WeeklyScores => reveal_strlit("athena:unique_scores:weekly"),
        CacheEntry::MonthlyScores => reveal_strlit("athena:unique_scores:monthly"),
        CacheEntry::DailyHistoricGraphs => reveal_strlit("athena:daily_graph"),
    }
}

/// No two entries share a key, so writing one entry never overwrites another.
pub proof fn law_keys_are_distinct(a: CacheEntry, b: CacheEntry)
    ensures
        a.key_spec() == b.key_spec() ==> a == b,
{
    lemma_key_signature(a);
    lemma_key_signature(b);
}

/// Every entry but the daily graphs lives a fixed number of seconds, whatever
/// the time it is written: one minute for the latest measurement, five
/// minutes for the peaks and the day and history graphs, one day for the
/// complete history and the day and week aggregates, one week for the month
/// aggregates. The daily graphs live until an instant, 01:00 UTC of the day
/// after they are written.
pub proof fn law_fixed_lifetimes(entry: CacheEntry, now: int, later: int)
    requires
        schedulable(now),
    ensures
        !entry.clock_dependent() ==> entry.ttl_spec(now) == entry.ttl_spec(later),
        !entry.clock_dependent() ==> (entry.ttl_spec(now) matches Ttl::Seconds(s) && s == (
        match entry {
            CacheEntry::LatestChangelog => 60int,
            CacheEntry::PeakUserCount => 300,
            CacheEntry::PeakUserRatio => 300,
            CacheEntry::PeakUserPercentile => 300,
            CacheEntry::DayUserGraph => 300,
            CacheEntry::BothClientsHistoryGraph => 300,
            CacheEntry::CompleteHistoryGraph => 86400,
            CacheEntry::DailyAggregate => 86400,
            CacheEntry::WeeklyAggregate => 86400,
            CacheEntry::MonthlyAggregate => 604800,
            CacheEntry::DailyScores => 86400,
            CacheEntry::WeeklyScores => 86400,
            CacheEntry::MonthlyScores => 604800,
            CacheEntry::DailyHistoricGraphs => 0,
        })),
        entry.clock_dependent() ==> (entry.ttl_spec(now) matches Ttl::Until(t) && t
            == next_1am_spec(now) && t % 86400 == 3600 && now < t <= now + 90000),
{
    if entry.clock_dependent() {
        law_next_1am_is_tomorrow_one_oclock(now);
    }
}

/// The word that names a period in aggregate keys.
pub open spec fn period_word(range: BucketTimeRange) -> Seq<char> {
    match range {
        BucketTimeRange::Day => "daily"@,
        BucketTimeRange::Week => "weekly"@,
        BucketTimeRange::Month => "monthly"@,
    }
}

/// The aggregate of a period is stored under the key that names the kind of
/// aggregate and the period; a period's aggregates live one day, except the
/// month's, which live one week; different periods use different entries.
pub proof fn law_aggregate_keys_name_their_period(range: BucketTimeRange, other: BucketTimeRange, now: int)
    ensures
        CacheEntry::users_entry(range).key_spec() == "athena:unique_users_by_id:"@ + period_word(range),
        CacheEntry::scores_entry(range).key_spec() == "athena:unique_scores:"@ + period_word(range),
        CacheEntry::users_entry(range).ttl_spec(now) == CacheEntry::scores_entry(range).ttl_spec(now),
        CacheEntry::users_entry(range).ttl_spec(now) == (if range == BucketTimeRange::Month {
            Ttl::Seconds(604800)
        } else {
            Ttl::Seconds(86400)
        }),
        CacheEntry::users_entry(range) != CacheEntry::scores_entry(other),
        range != other ==> CacheEntry::users_entry(range) != CacheEntry::users_entry(other),
        range != other ==> CacheEntry::scores_entry(range) != CacheEntry::scores_entry(other),
{
    reveal_strlit("athena:unique_users_by_id:");
    reveal_strlit("athena:unique_scores:");
    reveal_strlit("daily");
    reveal_strlit("weekly");
    reveal_strlit("monthly");
    reveal_strlit("athena:unique_users_by_id:daily");
    reveal_strlit("athena:unique_users_by_id:weekly");
    reveal_strlit("athena:unique_users_by_id:monthly");
    reveal_strlit("athena:unique_scores:daily");
    reveal_strlit("athena:unique_scores:weekly");
    reveal_strlit("athena:unique_scores:monthly");
    assert(CacheEntry::users_entry(range).key_spec() =~= "athena:unique_users_by_id:"@ + period_word(range));
    assert(CacheEntry::scores_entry(range).key_spec() =~= "athena:unique_scores:"@ + period_word(range));
}

/// User counts and score counts of a period live in different entries; the
/// entries of a day or a week live for a day, those of a month for a week.
pub proof fn law_aggregate_entries(range: BucketTimeRange, other: BucketTimeRange, now: int)
    ensures
        ({
            let users = match range {
                BucketTimeRange::Day => CacheEntry::DailyAggregate,
                BucketTimeRange::Week => CacheEntry::WeeklyAggregate,
                BucketTimeRange::Month => CacheEntry::MonthlyAggregate,
            };
            let scores = match other {
                BucketTimeRange::Day => CacheEntry::DailyScores,
                BucketTimeRange::Week => CacheEntry::WeeklyScores,
                BucketTimeRange::Month => CacheEntry::MonthlyScores,
            };
            &&& users != scores
            &&& users.ttl_spec(now) == scores.ttl_spec(now) <==> (
                (range == BucketTimeRange::Month) == (other == BucketTimeRange::Month))
            &&& users.ttl_spec(now) == (if range == BucketTimeRange::Month {
                Ttl::Seconds(604800)
            } else {
                Ttl::Seconds(86400)
            })
        }),
{
}

} // verus!
