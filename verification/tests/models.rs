use ushio::database::models::{
    build_id_column, none_if_default, BucketSize, ClientType, ScoreGameMode, ScoreStatistics,
    StatisticCounts,
};

#[test]
fn zero_counts_are_left_out() {
    assert_eq!(none_if_default(0), None);
    assert_eq!(none_if_default(12), Some(12));
    let counts = StatisticCounts { miss: 3, great: 250, ok: 0, large_tick_hit: 7, ..Default::default() };
    let stats = ScoreStatistics::from(counts);
    assert_eq!(stats.miss, Some(3));
    assert_eq!(stats.great, Some(250));
    assert_eq!(stats.ok, None);
    assert_eq!(stats.large_tick_hit, Some(7));
    assert_eq!(stats.meh, None);
    assert_eq!(stats.legacy_combo_increase, None);
    assert_eq!(ScoreStatistics::from(StatisticCounts::default()), ScoreStatistics::default());
}

#[test]
fn statistics_round_trip_to_counts() {
    let counts = StatisticCounts {
        miss: 1, meh: 2, ok: 3, good: 4, great: 5, perfect: 6, large_tick_hit: 7,
        large_tick_miss: 8, small_tick_hit: 9, small_tick_miss: 10, ignore_hit: 11,
        ignore_miss: 12, large_bonus: 13, small_bonus: 14, slider_tail_hit: 15,
        combo_break: 16, legacy_combo_increase: 17,
    };
    let stats = ScoreStatistics::from(counts);
    assert_eq!(stats.miss.unwrap_or(0), 1);
    assert_eq!(stats.slider_tail_hit.unwrap_or(0), 15);
    assert_eq!(stats.combo_break, Some(16));
    assert_eq!(stats.legacy_combo_increase, Some(17));
}

#[test]
fn client_types() {
    assert_eq!(ClientType::from(0), ClientType::Stable);
    assert_eq!(ClientType::from(1), ClientType::Lazer);
    assert_eq!(ClientType::from_name("stable".to_string()), ClientType::Stable);
    assert_eq!(ClientType::from_name("lazer".to_string()), ClientType::Lazer);
    assert_eq!(ClientType::default(), ClientType::Lazer);
}

#[test]
fn game_modes() {
    assert_eq!(ScoreGameMode::from(0), ScoreGameMode::Osu);
    assert_eq!(ScoreGameMode::from(1), ScoreGameMode::Taiko);
    assert_eq!(ScoreGameMode::from(2), ScoreGameMode::Catch);
    assert_eq!(ScoreGameMode::from(3), ScoreGameMode::Mania);
    assert_eq!(ScoreGameMode::default(), ScoreGameMode::Osu);
    assert_eq!(BucketSize::default(), BucketSize::Day);
}

#[test]
fn build_id_is_a_byte() {
    assert_eq!(build_id_column(None), 0);
    assert_eq!(build_id_column(Some(7)), 7);
    assert_eq!(build_id_column(Some(300)), 44);
}
