//! Instants as whole Unix seconds in UTC, within the range that the `time`
//! crate can represent, and the day arithmetic the service schedules with.

use vstd::prelude::*;

verus! {

/// Seconds in one UTC day (Unix time has no leap seconds).
pub const SECONDS_PER_DAY: i64 = 86400;

/// Seconds in one hour.
pub const SECONDS_PER_HOUR: i64 = 3600;

/// `-9999-01-01T00:00:00Z`, the earliest instant `time::OffsetDateTime` holds.
pub const EARLIEST_UNIX: i64 = -377705116800;

/// `9999-12-31T23:59:59Z`, the latest whole second `time::OffsetDateTime` holds.
pub const LATEST_UNIX: i64 = 253402300799;

/// Latest instant whose following day still lies within the representable range.
pub const LATEST_SCHEDULABLE_UNIX: i64 = 253402214399;

/// Whether a Unix timestamp names an instant that `time` can represent.
pub open spec fn representable(t: int) -> bool {
    EARLIEST_UNIX <= t <= LATEST_UNIX
}

/// Whether one day can be added to the instant without leaving the range.
pub open spec fn schedulable(t: int) -> bool {
    EARLIEST_UNIX <= t <= LATEST_SCHEDULABLE_UNIX
}

/// Index of the UTC day holding `t` (days since 1970-01-01, floored).
pub open spec fn day_index(t: int) -> int {
    t / 86400
}

/// 01:00:00 UTC of the day after the one holding `now`.
pub open spec fn next_1am_spec(now: int) -> int {
    (day_index(now) + 1) * 86400 + 3600
}

/// Wraps `time::OffsetDateTime::from_unix_timestamp`: it succeeds exactly when
/// the timestamp lies between `EARLIEST_UNIX` and `LATEST_UNIX` (the crate is
/// built without its `large-dates` feature, so years run from -9999 to 9999).
#[verifier::external_body]
pub(crate) fn accepts_unix_timestamp(timestamp: i64) -> (accepted: bool)
    ensures
        accepted == representable(timestamp as int),
{
    time::OffsetDateTime::from_unix_timestamp(timestamp).is_ok()
}

/// Wraps `time::OffsetDateTime::now_utc`, read back as whole Unix seconds via
/// `unix_timestamp`. The value depends on the system clock; all that is
/// claimed is that it lies in the range an `OffsetDateTime` can hold.
#[verifier::external_body]
pub(crate) fn utc_now_unix() -> (now: i64)
    ensures
        representable(now as int),
{
    time::OffsetDateTime::now_utc().unix_timestamp()
}

/// `now + 1 day` with its time of day replaced by 01:00:00, in UTC: the moment
/// at which daily data is recomputed after `now`.
pub fn next_1am_from(now: i64) -> (next: i64)
    requires
        schedulable(now as int),
    ensures
        next == next_1am_spec(now as int),
{
    let since_earliest: u64 = (now - EARLIEST_UNIX) as u64;
    let days: u64 = since_earliest / 86400;
    proof {
        // EARLIEST_UNIX is the midnight that starts day -4371587.
        assert(EARLIEST_UNIX == -4371587 * 86400);
        assert(day_index(now as int) == days - 4371587) by {
            assert(since_earliest == now + 4371587 * 86400);
            lemma_shift_day(since_earliest as int, 4371587);
        }
    }
    EARLIEST_UNIX + ((days + 1) as i64) * SECONDS_PER_DAY + SECONDS_PER_HOUR
}

/// Shifting an instant by whole days shifts its day index by the same count.
proof fn lemma_shift_day(t: int, days: int)
    ensures
        (t - days * 86400) / 86400 == t / 86400 - days,
{
    vstd::arithmetic::div_mod::lemma_fundamental_div_mod(t, 86400);
    vstd::arithmetic::div_mod::lemma_fundamental_div_mod_converse(
        t - days * 86400,
        86400,
        t / 86400 - days,
        t % 86400,
    );
}

/// 01:00 UTC of the day after the one holding the clock reading `now`; none
/// when `now` lies on or after the last representable day, which has no next
/// day (or before the earliest representable instant).
pub fn next_1am_after(now: i64) -> (next: Option<i64>)
    ensures
        next is Some <==> schedulable(now as int),
        next matches Some(t) ==> t == next_1am_spec(now as int),
{
    if EARLIEST_UNIX <= now && now <= LATEST_SCHEDULABLE_UNIX {
        Some(next_1am_from(now))
    } else {
        None
    }
}

/// Whether `next` is what `next_1am_after` answers for the clock reading `now`,
/// a representable instant.
pub open spec fn next_1am_answer(now: int, next: Option<i64>) -> bool {
    &&& representable(now)
    &&& (next is Some <==> schedulable(now))
    &&& (next matches Some(t) ==> t == next_1am_spec(now))
}

/// 01:00 UTC of the day after the current one, by the system clock; none
/// when the clock stands on the last representable day, which has no next day.
pub fn next_1am() -> (next: Option<i64>)
    ensures
        next matches Some(t) ==> exists|now: int| schedulable(now) && t == next_1am_spec(now),
        exists|now: int| #[trigger] next_1am_answer(now, next),
{
    let now: i64 = utc_now_unix();
    let next: Option<i64> = next_1am_after(now);
    proof {
        if next is Some {
            assert(schedulable(now as int));
        }
        assert(next_1am_answer(now as int, next));
    }
    next
}

/// The start of the one-day window that ends at `now`, saturating at the
/// earliest representable instant.
pub open spec fn day_window_start_spec(now: int) -> int {
    if now - 86400 < EARLIEST_UNIX {
        EARLIEST_UNIX as int
    } else {
        now - 86400
    }
}

/// The start of the one-day window that ends at `now`, saturating at the
/// earliest representable instant (`now - 1 day`, as `saturating_sub` gives it).
pub fn day_window_start(now: i64) -> (start: i64)
    requires
        representable(now as int),
    ensures
        start == day_window_start_spec(now as int),
{
    if now < EARLIEST_UNIX + SECONDS_PER_DAY {
        EARLIEST_UNIX
    } else {
        now - SECONDS_PER_DAY
    }
}

/// The one-day window ending at `now` is representable, starts no later than
/// `now`, and spans exactly one day unless it is cut off at the earliest
/// representable instant; a later end never gives an earlier start.
pub proof fn law_day_window(now: int, later: int)
    requires
        representable(now),
        representable(later),
        now <= later,
    ensures
        representable(day_window_start_spec(now)),
        day_window_start_spec(now) <= now,
        now - day_window_start_spec(now) == 86400 || (day_window_start_spec(now) == EARLIEST_UNIX
            && now - EARLIEST_UNIX < 86400),
        day_window_start_spec(now) <= day_window_start_spec(later),
{
}

/// The instant computed for a cache expiry lies at 01:00 UTC on the day after
/// `now`, so it is always later than `now` and at most 25 hours later.
pub proof fn law_next_1am_is_tomorrow_one_oclock(now: int)
    requires
        schedulable(now),
    ensures
        day_index(next_1am_spec(now)) == day_index(now) + 1,
        next_1am_spec(now) % 86400 == 3600,
        now < next_1am_spec(now) <= now + 90000,
        representable(next_1am_spec(now)),
{
    let d: int = day_index(now);
    vstd::arithmetic::div_mod::lemma_fundamental_div_mod(now, 86400);
    vstd::arithmetic::div_mod::lemma_fundamental_div_mod_converse(
        next_1am_spec(now),
        86400,
        d + 1,
        3600,
    );
}

} // verus!
