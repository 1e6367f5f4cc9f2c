//! Score data as stored: hit statistics, client and ruleset identifiers.

use vstd::prelude::*;

verus! {

/// Hit counts of a score as the osu! API reports them, every count present
/// (absent counts are zero).
#[derive(Debug, Clone, Copy, Default, PartialEq, Eq, Structural)]
pub struct StatisticCounts {
    pub miss: u32,
    pub meh: u32,
    pub ok: u32,
    pub good: u32,
    pub great: u32,
    pub perfect: u32,
    pub large_tick_hit: u32,
    pub large_tick_miss: u32,
    pub small_tick_hit: u32,
    pub small_tick_miss: u32,
    pub ignore_hit: u32,
    pub ignore_miss: u32,
    pub large_bonus: u32,
    pub small_bonus: u32,
    pub slider_tail_hit: u32,
    pub combo_break: u32,
    pub legacy_combo_increase: u32,
}

/// Hit statistics as stored with a score: a count that is zero is left out.
#[derive(Debug, Clone, Copy, Default, PartialEq, Eq, Structural)]
pub struct ScoreStatistics {
    pub miss: Option<u32>,
    pub meh: Option<u32>,
    pub ok: Option<u32>,
    pub good: Option<u32>,
    pub great: Option<u32>,
    pub perfect: Option<u32>,
    pub large_tick_hit: Option<u32>,
    pub large_tick_miss: Option<u32>,
    pub small_tick_hit: Option<u32>,
    pub small_tick_miss: Option<u32>,
    pub ignore_hit: Option<u32>,
    pub ignore_miss: Option<u32>,
    pub large_bonus: Option<u32>,
    pub small_bonus: Option<u32>,
    pub slider_tail_hit: Option<u32>,
    pub combo_break: Option<u32>,
    pub legacy_combo_increase: Option<u32>,
}

/// A count as stored: absent when it is zero.
pub open spec fn stored_count(count: u32) -> Option<u32> {
    if count == 0 {
        None
    } else {
        Some(count)
    }
}

/// A stored count read back: zero when absent.
pub open spec fn count_of(stored: Option<u32>) -> u32 {
    match stored {
        Some(count) => count,
        None => 0,
    }
}

/// A stored count is well formed when it is absent or nonzero.
pub open spec fn well_stored(stored: Option<u32>) -> bool {
    stored != Some(0u32)
}

/// `None` for a zero count, the count otherwise.
pub fn none_if_default(count: u32) -> (stored: Option<u32>)
    ensures
        stored == stored_count(count),
{
    if count == 0 {
        None
    } else {
        Some(count)
    }
}

impl ScoreStatistics {
    /// The counts that the statistics stand for, absent ones read as zero.
    pub open spec fn counts(self) -> StatisticCounts {
        StatisticCounts {
            miss: count_of(self.miss),
            meh: count_of(self.meh),
            ok: count_of(self.ok),
            good: count_of(self.good),
            great: count_of(self.great),
            perfect: count_of(self.perfect),
            large_tick_hit: count_of(self.large_tick_hit),
            large_tick_miss: count_of(self.large_tick_miss),
            small_tick_hit: count_of(self.small_tick_hit),
            small_tick_miss: count_of(self.small_tick_miss),
            ignore_hit: count_of(self.ignore_hit),
            ignore_miss: count_of(self.ignore_miss),
            large_bonus: count_of(self.large_bonus),
            small_bonus: count_of(self.small_bonus),
            slider_tail_hit: count_of(self.slider_tail_hit),
            combo_break: count_of(self.combo_break),
            legacy_combo_increase: count_of(self.legacy_combo_increase),
        }
    }

    /// No count is stored as an explicit zero.
    pub open spec fn well_formed(self) -> bool {
        &&& well_stored(self.miss)
        &&& well_stored(self.meh)
        &&& well_stored(self.ok)
        &&& well_stored(self.good)
        &&& well_stored(self.great)
        &&& well_stored(self.perfect)
        &&& well_stored(self.large_tick_hit)
        &&& well_stored(self.large_tick_miss)
        &&& well_stored(self.small_tick_hit)
        &&& well_stored(self.small_tick_miss)
        &&& well_stored(self.ignore_hit)
        &&& well_stored(self.ignore_miss)
        &&& well_stored(self.large_bonus)
        &&& well_stored(self.small_bonus)
        &&& well_stored(self.slider_tail_hit)
        &&& well_stored(self.combo_break)
        &&& well_stored(self.legacy_combo_increase)
    }
}

/// The stored form of a set of counts.
pub open spec fn statistics_of(value: StatisticCounts) -> ScoreStatistics {
    ScoreStatistics {
        miss: stored_count(value.miss),
        meh: stored_count(value.meh),
        ok: stored_count(value.ok),
        good: stored_count(value.good),
        great: stored_count(value.great),
        perfect: stored_count(value.perfect),
        large_tick_hit: stored_count(value.large_tick_hit),
        large_tick_miss: stored_count(value.large_tick_miss),
        small_tick_hit: stored_count(value.small_tick_hit),
        small_tick_miss: stored_count(value.small_tick_miss),
        ignore_hit: stored_count(value.ignore_hit),
        ignore_miss: stored_count(value.ignore_miss),
        large_bonus: stored_count(value.large_bonus),
        small_bonus: stored_count(value.small_bonus),
        slider_tail_hit: stored_count(value.slider_tail_hit),
        combo_break: stored_count(value.combo_break),
        legacy_combo_increase: stored_count(value.legacy_combo_increase),
    }
}

impl From<StatisticCounts> for ScoreStatistics {
    fn from(value: StatisticCounts) -> (stats: Self) {
        ScoreStatistics {
            miss: none_if_default(value.miss),
            meh: none_if_default(value.meh),
            ok: none_if_default(value.ok),
            good: none_if_default(value.good),
            great: none_if_default(value.great),
            perfect: none_if_default(value.perfect),
            large_tick_hit: none_if_default(value.large_tick_hit),
            large_tick_miss: none_if_default(value.large_tick_miss),
            small_tick_hit: none_if_default(value.small_tick_hit),
            small_tick_miss: none_if_default(value.small_tick_miss),
            ignore_hit: none_if_default(value.ignore_hit),
            ignore_miss: none_if_default(value.ignore_miss),
            large_bonus: none_if_default(value.large_bonus),
            small_bonus: none_if_default(value.small_bonus),
            slider_tail_hit: none_if_default(value.slider_tail_hit),
            combo_break: none_if_default(value.combo_break),
            legacy_combo_increase: none_if_default(value.legacy_combo_increase),
        }
    }
}

impl vstd::std_specs::convert::FromSpecImpl<StatisticCounts> for ScoreStatistics {
    open spec fn obeys_from_spec() -> bool {
        true
    }

    open spec fn from_spec(v: StatisticCounts) -> Self {
        statistics_of(v)
    }
}

/// Storing counts loses nothing: the stored statistics are well formed, read
/// back to the same counts, and well-formed statistics are the stored form of
/// their own counts.
pub proof fn law_statistics_round_trip(counts: StatisticCounts, stats: ScoreStatistics)
    ensures
        statistics_of(counts).well_formed(),
        statistics_of(counts).counts() == counts,
        stats.well_formed() ==> statistics_of(stats.counts()) == stats,
{
}

/// The client a score was set on.
#[derive(Debug, Clone, Copy, PartialEq, Eq, Structural)]
pub enum ClientType {
    Stable,
    Lazer,
}

impl ClientType {
    /// The number that stands for the client in the database.
    pub open spec fn code(self) -> int {
        match self {
            ClientType::Stable => 0,
            ClientType::Lazer => 1,
        }
    }

    /// The client's name in lower case, as it is serialized.
    pub open spec fn name(self) -> Seq<char> {
        match self {
            ClientType::Stable => "stable"@,
            ClientType::Lazer => "lazer"@,
        }
    }

    /// The client with the given database number: 0 is stable, 1 is lazer.
    pub open spec fn of_code(value: int) -> Self {
        if value == 0 {
            ClientType::Stable
        } else {
            ClientType::Lazer
        }
    }

    /// The client with the given database number.
    pub fn from(value: i32) -> (client: Self)
        requires
            value == 0 || value == 1,
        ensures
            client == ClientType::of_code(value as int),
            client.code() == value,
    {
        if value == 0 {
            ClientType::Stable
        } else {
            ClientType::Lazer
        }
    }

    /// The client with the given lower-case name.
    pub fn from_name(value: String) -> (client: Self)
        requires
            value@ == "stable"@ || value@ == "lazer"@,
        ensures
            client.name() == value@,
    {
        let stable: String = "stable".to_owned();
        if value == stable {
            ClientType::Stable
        } else {
            ClientType::Lazer
        }
    }
}

impl Default for ClientType {
    fn default() -> (client: Self)
        ensures
            client == ClientType::Lazer,
    {
        ClientType::Lazer
    }
}

/// Each client has its own number and its own name, so reading back a
/// client's number or name gives the same client; 0 and 1 are the numbers of
/// stable and lazer, and converting a client's number gives that client.
pub proof fn law_client_codes_identify(a: ClientType, b: ClientType, value: int)
    ensures
        a.code() == b.code() ==> a == b,
        a.name() == b.name() ==> a == b,
        ClientType::of_code(0) == ClientType::Stable,
        ClientType::of_code(1) == ClientType::Lazer,
        ClientType::of_code(a.code()) == a,
        (value == 0 || value == 1) ==> ClientType::of_code(value).code() == value,
{
    reveal_strlit("stable");
    reveal_strlit("lazer");
    if a != b {
        assert(a.name().len() != b.name().len());
    }
}

/// The ruleset (game mode) of a score.
#[derive(Debug, Clone, Copy, PartialEq, Eq, Structural)]
pub enum ScoreGameMode {
    /// osu!standard
    Osu,
    /// osu!taiko
    Taiko,
    /// osu!catch
    Catch,
    /// osu!mania
    Mania,
}

impl ScoreGameMode {
    /// The ruleset id of the mode.
    pub open spec fn code(self) -> int {
        match self {
            ScoreGameMode::Osu => 0,
            ScoreGameMode::Taiko => 1,
            ScoreGameMode::Catch => 2,
            ScoreGameMode::Mania => 3,
        }
    }

    /// The mode with the given ruleset id, in the order osu!, taiko, catch,
    /// mania.
    pub open spec fn of_code(value: int) -> Self {
        if value == 0 {
            ScoreGameMode::Osu
        } else if value == 1 {
            ScoreGameMode::Taiko
        } else if value == 2 {
            ScoreGameMode::Catch
        } else {
            ScoreGameMode::Mania
        }
    }

    /// The mode with the given ruleset id.
    pub fn from(value: i16) -> (mode: Self)
        requires
            0 <= value <= 3,
        ensures
            mode == ScoreGameMode::of_code(value as int),
            mode.code() == value,
    {
        match value {
            0 => ScoreGameMode::Osu,
            1 => ScoreGameMode::Taiko,
            2 => ScoreGameMode::Catch,
            _ => ScoreGameMode::Mania,
        }
    }
}

impl Default for ScoreGameMode {
    fn default() -> (mode: Self)
        ensures
            mode == ScoreGameMode::Osu,
    {
        ScoreGameMode::Osu
    }
}

/// Each ruleset id names one mode, so reading back a mode's id gives the
/// same mode, and converting an id from 0 to 3 gives the mode with that id.
pub proof fn law_mode_codes_identify(a: ScoreGameMode, b: ScoreGameMode, value: int)
    ensures
        a.code() == b.code() ==> a == b,
        0 <= a.code() <= 3,
        ScoreGameMode::of_code(a.code()) == a,
        0 <= value <= 3 ==> ScoreGameMode::of_code(value).code() == value,
        ScoreGameMode::of_code(0) == ScoreGameMode::Osu,
        ScoreGameMode::of_code(1) == ScoreGameMode::Taiko,
        ScoreGameMode::of_code(2) == ScoreGameMode::Catch,
        ScoreGameMode::of_code(3) == ScoreGameMode::Mania,
{
}

/// Width of the time buckets a history is grouped into.
#[derive(Debug, Clone, Copy, PartialEq, Eq, Structural)]
pub enum BucketSize {
    Hour,
    Day,
    Week,
    Month,
}

impl Default for BucketSize {
    fn default() -> (size: Self)
        ensures
            size == BucketSize::Day,
    {
        BucketSize::Day
    }
}

/// The build id column of a score: the API's build id, zero when absent,
/// truncated to a byte.
pub open spec fn build_id_spec(build_id: Option<u32>) -> u8 {
    (match build_id {
        Some(id) => id,
        None => 0u32,
    }) as u8
}

/// The build id column of a score: the API's build id, zero when absent,
/// truncated to a byte.
pub fn build_id_column(build_id: Option<u32>) -> (column: u8)
    ensures
        column == build_id_spec(build_id),
{
    match build_id {
        Some(id) => id as u8,
        None => 0,
    }
}

/// An absent build id is stored as zero; a present one is stored as its
/// remainder modulo 256, so every id below 256 is stored unchanged.
pub proof fn law_build_id_column(id: u32)
    ensures
        build_id_spec(None) == 0,
        build_id_spec(Some(id)) == id % 256,
        id < 256 ==> build_id_spec(Some(id)) == id,
{
    assert((id as u8) == id % 256) by (bit_vector);
}

/// The serialized names of the clients are their lower-case names.
pub proof fn law_client_names()
    ensures
        ClientType::Stable.name() == "stable"@,
        ClientType::Lazer.name() == "lazer"@,
        ClientType::of_code(0).name() == "stable"@,
{
}

} // verus!
