use simgine_core::elapsed::Elapsed;
use simgine_core::time::{Clock, ClockModel, Weekday, SECS_PER_DAY, SECS_PER_MIN};

/// Monday 13:00 to Sunday 23:59, in wall-clock seconds.
const TO_SUNDAY_LAST_MINUTE: u64 = (6 * 1440 + 1439 - 13 * 60) * SECS_PER_MIN;

fn at_sunday_last_minute() -> ClockModel {
    let mut model = ClockModel::new();
    model.tick(Elapsed::from_secs(TO_SUNDAY_LAST_MINUTE));
    assert_eq!(model.weekday(), Weekday::Sun);
    assert_eq!(model.clock(), Clock::new(23, 59).unwrap());
    model
}

#[test]
fn weekday_advance_wraps_around_the_week() {
    let mut day = Weekday::Sat;
    day.advance(2);
    assert_eq!(day, Weekday::Mon);
    let mut day = Weekday::Wed;
    day.advance(0);
    assert_eq!(day, Weekday::Wed);
    let mut day = Weekday::Mon;
    day.advance(7 * 1000 + 3);
    assert_eq!(day, Weekday::Thu);
    let mut day = Weekday::Sun;
    // u64::MAX leaves 1 when divided by 7.
    day.advance(u64::MAX);
    assert_eq!(day, Weekday::Mon);
}

#[test]
fn weekday_from_elapsed_days() {
    assert_eq!(Weekday::from_elapsed_days(0), Weekday::Mon);
    assert_eq!(Weekday::from_elapsed_days(6), Weekday::Sun);
    assert_eq!(Weekday::from_elapsed_days(7), Weekday::Mon);
    assert_eq!(Weekday::from_elapsed_days(12), Weekday::Sat);
}

#[test]
fn weekday_names_and_indices() {
    let days = [
        Weekday::Mon,
        Weekday::Tue,
        Weekday::Wed,
        Weekday::Thu,
        Weekday::Fri,
        Weekday::Sat,
        Weekday::Sun,
    ];
    let names = ["Mon", "Tue", "Wed", "Thu", "Fri", "Sat", "Sun"];
    for (i, day) in days.iter().enumerate() {
        assert_eq!(day.index(), i as u64);
        assert_eq!(day.as_str(), names[i]);
    }
    assert_eq!(Weekday::default(), Weekday::Mon);
}

#[test]
fn clock_new_checks_ranges() {
    assert!(Clock::new(0, 0).is_some());
    assert!(Clock::new(23, 59).is_some());
    assert!(Clock::new(24, 0).is_none());
    assert!(Clock::new(12, 60).is_none());
    let clock = Clock::new(7, 5).unwrap();
    assert_eq!(clock.hour(), 7);
    assert_eq!(clock.minute(), 5);
    assert_eq!(clock.minute_of_day(), 425);
    assert_eq!(Clock::from_minute_of_day(425), clock);
}

#[test]
fn clock_label_pads_with_zeros() {
    assert_eq!(Clock::new(7, 5).unwrap().to_label(), "07:05");
    assert_eq!(Clock::new(23, 59).unwrap().to_label(), "23:59");
    assert_eq!(Clock::new(0, 0).unwrap().to_label(), "00:00");
    assert_eq!(Clock::default().to_label(), "13:00");
}

#[test]
fn clock_secs_since_midnight() {
    assert_eq!(Clock::new(0, 0).unwrap().secs_since_midnight(), 0);
    assert_eq!(Clock::new(1, 30).unwrap().secs_since_midnight(), 90 * SECS_PER_MIN);
    assert_eq!(Clock::default().secs_since_midnight(), 780 * 2);
    assert_eq!(SECS_PER_DAY, 2880);
}

#[test]
fn elapsed_conversions() {
    assert_eq!(Elapsed::zero().as_nanos(), 0);
    assert_eq!(Elapsed::from_secs(3).as_nanos(), 3_000_000_000);
    let span = Elapsed::from_millis(2_750);
    assert_eq!(span.as_secs(), 2);
    assert_eq!(span.subsec_nanos(), 750_000_000);
    assert_eq!(Elapsed::from_parts(1, 5).as_nanos(), 1_000_000_005);
    let largest = Elapsed::from_parts(u64::MAX, 999_999_999);
    assert_eq!(largest.as_nanos(), u64::MAX as u128 * 1_000_000_000 + 999_999_999);
}

#[test]
fn default_session_calendar() {
    let model = ClockModel::new();
    assert_eq!(model.weekday(), Weekday::Mon);
    assert_eq!(model.clock(), Clock::new(13, 0).unwrap());
    assert_eq!(model.carry(), Elapsed::zero());
    assert_eq!(ClockModel::default(), model);
}

#[test]
fn zero_tick_changes_nothing() {
    let mut model = ClockModel::new();
    let before = model;
    let changes = model.tick(Elapsed::zero());
    assert_eq!(changes.weekday, None);
    assert_eq!(changes.clock, None);
    assert_eq!(model, before);

    let mut late = at_sunday_last_minute();
    late.tick(Elapsed::from_millis(1_999));
    let before = late;
    let changes = late.tick(Elapsed::zero());
    assert_eq!(changes.weekday, None);
    assert_eq!(changes.clock, None);
    assert_eq!(late, before);
}

#[test]
fn sub_minute_tick_only_accumulates() {
    let mut model = ClockModel::new();
    let changes = model.tick(Elapsed::from_millis(1_500));
    assert_eq!(changes.weekday, None);
    assert_eq!(changes.clock, None);
    assert_eq!(model.clock(), Clock::new(13, 0).unwrap());
    assert_eq!(model.carry(), Elapsed::from_millis(1_500));
}

#[test]
fn minute_tick_notifies_clock_only() {
    let mut model = ClockModel::new();
    let changes = model.tick(Elapsed::from_secs(SECS_PER_MIN));
    assert_eq!(changes.weekday, None);
    assert_eq!(changes.clock, Some(Clock::new(13, 1).unwrap()));
    assert_eq!(model.weekday(), Weekday::Mon);
}

#[test]
fn minutes_roll_into_hours() {
    let mut model = ClockModel::new();
    let changes = model.tick(Elapsed::from_secs(75 * SECS_PER_MIN));
    assert_eq!(changes.clock, Some(Clock::new(14, 15).unwrap()));
    assert_eq!(changes.weekday, None);
}

#[test]
fn midnight_notifies_weekday_and_clock() {
    let mut model = at_sunday_last_minute();
    let changes = model.tick(Elapsed::from_secs(SECS_PER_MIN));
    assert_eq!(changes.weekday, Some(Weekday::Mon));
    assert_eq!(changes.clock, Some(Clock::new(0, 0).unwrap()));
}

#[test]
fn whole_day_tick_notifies_weekday_only() {
    let mut model = ClockModel::new();
    let changes = model.tick(Elapsed::from_secs(SECS_PER_DAY));
    assert_eq!(changes.weekday, Some(Weekday::Tue));
    assert_eq!(changes.clock, None);
    assert_eq!(model.clock(), Clock::new(13, 0).unwrap());
}

#[test]
fn two_days_from_sunday_last_minute() {
    let mut model = at_sunday_last_minute();
    let changes = model.tick(Elapsed::from_secs(2 * SECS_PER_DAY));
    assert_eq!(model.weekday(), Weekday::Tue);
    assert_eq!(model.clock(), Clock::new(23, 59).unwrap());
    assert_eq!(changes.weekday, Some(Weekday::Tue));
    assert_eq!(changes.clock, None);
}

#[test]
fn whole_week_tick_changes_nothing_visible() {
    let mut model = ClockModel::new();
    let changes = model.tick(Elapsed::from_secs(7 * SECS_PER_DAY));
    assert_eq!(changes.weekday, None);
    assert_eq!(changes.clock, None);
    assert_eq!(model, ClockModel::new());
}

#[test]
fn carry_is_conserved_across_ticks() {
    let mut model = ClockModel::new();
    let spans = [1_500u64, 1_500, 1_500, 700, 3_999];
    let mut fed = 0u64;
    for millis in spans {
        model.tick(Elapsed::from_millis(millis));
        fed += millis;
        assert!(model.carry().as_nanos() < 2_000_000_000);
    }
    // 9_199 ms make four in-game minutes and 1_199 ms of carry.
    assert_eq!(fed, 9_199);
    assert_eq!(model.clock(), Clock::new(13, 4).unwrap());
    assert_eq!(model.carry(), Elapsed::from_millis(1_199));
}

#[test]
fn time_of_week_advances_by_completed_minutes() {
    let mut model = ClockModel::new();
    let mut fed_millis = 0u64;
    let mut previous = 13 * 60u64;
    for millis in [10_000u64, 3_333, 86_400, 1, 999_999, 2_880_000] {
        model.tick(Elapsed::from_millis(millis));
        fed_millis += millis;
        let week_minute = model.weekday().index() * 1440 + model.clock().minute_of_day();
        let expected = (13 * 60 + fed_millis / 2_000) % (7 * 1440);
        assert_eq!(week_minute, expected);
        assert!(week_minute >= previous || week_minute + 7 * 1440 >= previous);
        previous = week_minute;
    }
}

#[test]
fn largest_tick_does_not_overflow() {
    let mut model = ClockModel::new();
    let largest = Elapsed::from_parts(u64::MAX, 999_999_999);
    model.tick(largest);
    let minutes = (u64::MAX as u128 * 1_000_000_000 + 999_999_999) / 2_000_000_000;
    let week_minute = ((13 * 60 + minutes) % (7 * 1440)) as u64;
    assert_eq!(model.weekday().index(), week_minute / 1440);
    assert_eq!(model.clock().minute_of_day(), week_minute % 1440);
    // (2^64 - 1) s + 999_999_999 ns is 2^63 in-game minutes less one nanosecond.
    assert_eq!(model.carry().as_nanos(), 1_999_999_999);
}

#[test]
fn nanos_since_midnight_adds_the_carry() {
    let mut model = ClockModel::new();
    assert_eq!(model.nanos_since_midnight(), 780 * 2_000_000_000);
    model.tick(Elapsed::from_millis(2_500));
    assert_eq!(model.nanos_since_midnight(), 781 * 2_000_000_000 + 500_000_000);
}
