use time_ruler::label::{dec_i64, format_tick};
use time_ruler::policy::TimeDomain;

#[test]
fn sequence_labels() {
    assert_eq!(format_tick(TimeDomain::Sequence, 42), "#42");
    assert_eq!(format_tick(TimeDomain::Sequence, 0), "#0");
    assert_eq!(format_tick(TimeDomain::Sequence, -7), "#-7");
}

#[test]
fn whole_second_has_no_millisecond_suffix() {
    assert_eq!(format_tick(TimeDomain::Time, 1_000_000_000), "1s");
}

#[test]
fn subsecond_millisecond_precision_ladder() {
    assert_eq!(format_tick(TimeDomain::Time, 1_500_000_000), "+500 ms");
    assert_eq!(format_tick(TimeDomain::Time, 1_500_500_000), "+500.5 ms");
    assert_eq!(format_tick(TimeDomain::Time, 1_500_050_000), "+500.05 ms");
    assert_eq!(format_tick(TimeDomain::Time, 1_500_000_500), "+500.0005 ms");
    assert_eq!(format_tick(TimeDomain::Time, 1_500_000_001), "+500.000001 ms");
}

#[test]
fn negative_subsecond_is_signed() {
    assert_eq!(format_tick(TimeDomain::Time, -500_000_000), "-500 ms");
}

#[test]
fn elapsed_time_renders_as_duration() {
    assert_eq!(format_tick(TimeDomain::Time, 0), "0s");
    assert_eq!(format_tick(TimeDomain::Time, 10_926_000_000_000), "3h 2m 6s");
    assert_eq!(format_tick(TimeDomain::Time, -10_926_000_000_000), "-3h 2m 6s");
    assert_eq!(format_tick(TimeDomain::Time, 172_805_000_000_000), "2d 0h 0m 5s");
    assert_eq!(format_tick(TimeDomain::Time, 60_000_000_000), "1m 0s");
}

#[test]
fn wall_clock_time_renders_as_time_of_day() {
    // 2020-09-13T12:26:40Z, about fifty years after the epoch.
    assert_eq!(
        format_tick(TimeDomain::Time, 1_600_000_000_000_000_000),
        "12:26:40"
    );
    // Midnight exactly, about forty years after the epoch.
    assert_eq!(
        format_tick(TimeDomain::Time, 1_262_304_000_000_000_000),
        "00:00:00"
    );
}

#[test]
fn decimal_rendering_handles_extremes() {
    assert_eq!(dec_i64(i64::MIN), "-9223372036854775808");
    assert_eq!(dec_i64(i64::MAX), "9223372036854775807");
    assert_eq!(dec_i64(0), "0");
}
