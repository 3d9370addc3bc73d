use robohome::clock::{Day, Moment};
use robohome::data::{dow_of, get_dow, Time, TimeKind, TimeOfDay};

fn at(hour: u32, minute: u32) -> Moment {
    Moment { day: Day { year: 2024, month: 5, day: 17 }, weekday: 4, hour, minute }
}

fn morning(hour: i32, minute: i32) -> Time {
    Time::new(hour, minute, TimeOfDay::Am, TimeKind::Custom, 127)
}

fn afternoon(hour: i32, minute: i32) -> Time {
    Time::new(hour, minute, TimeOfDay::Pm, TimeKind::Custom, 127)
}

#[test]
fn half_past_nine_is_due_at_a_quarter_to_ten() {
    assert!(morning(9, 30).lte(&at(9, 45)));
}

#[test]
fn half_past_nine_is_not_due_at_a_quarter_past_nine() {
    assert!(!morning(9, 30).lte(&at(9, 15)));
}

#[test]
fn two_in_the_afternoon_is_not_due_a_minute_before() {
    assert!(!afternoon(2, 0).lte(&at(13, 59)));
}

#[test]
fn two_in_the_afternoon_is_due_on_the_minute() {
    assert!(afternoon(2, 0).lte(&at(14, 0)));
}

#[test]
fn a_time_is_due_at_its_own_hour_and_minute() {
    assert!(morning(7, 5).lte(&at(7, 5)));
    assert!(!morning(7, 5).lte(&at(7, 4)));
    assert!(!morning(7, 5).lte(&at(6, 59)));
}

#[test]
fn the_minute_is_tested_apart_from_the_hour() {
    // The hour has passed, the minute of the clock is behind the time's.
    assert!(!morning(9, 30).lte(&at(10, 15)));
    assert!(morning(9, 30).lte(&at(10, 30)));
    assert!(!afternoon(1, 59).lte(&at(23, 58)));
}

#[test]
fn the_afternoon_adds_twelve_to_every_hour() {
    assert!(afternoon(11, 0).lte(&at(23, 0)));
    assert!(!afternoon(11, 0).lte(&at(22, 59)));
    // Twelve in the afternoon counts as hour 24, which no clock reaches.
    assert!(!afternoon(12, 0).lte(&at(23, 59)));
    assert!(morning(12, 0).lte(&at(12, 0)));
}

#[test]
fn minutes_count_from_midnight() {
    assert_eq!(morning(9, 30).minutes(), 570);
    assert_eq!(afternoon(2, 0).minutes(), 840);
    assert_eq!(afternoon(12, 1).minutes(), 1441);
    assert_eq!(morning(0, 0).minutes(), 0);
}

#[test]
fn extreme_hours_and_minutes_do_not_overflow() {
    let late = Time::new(i32::MAX, i32::MAX, TimeOfDay::Pm, TimeKind::Custom, 0);
    assert!(!late.lte(&at(23, 59)));
    assert_eq!(late.minutes(), (i32::MAX as i64 + 12) * 60 + i32::MAX as i64);
    let early = Time::new(i32::MIN, i32::MIN, TimeOfDay::Am, TimeKind::Custom, 0);
    assert!(early.lte(&at(0, 0)));
    assert_eq!(early.minutes(), i32::MIN as i64 * 61);
}

#[test]
fn new_keeps_every_field() {
    let time = Time::new(6, 42, TimeOfDay::Pm, TimeKind::Sunset, 64);
    assert_eq!(time.hour, 6);
    assert_eq!(time.minute, 42);
    assert_eq!(time.tod, TimeOfDay::Pm);
    assert_eq!(time.kind, TimeKind::Sunset);
    assert_eq!(time.day_of_week, 64);
}

#[test]
fn each_weekday_has_its_bit_from_sunday() {
    let mut day = at(0, 0);
    let bits = [2, 4, 8, 16, 32, 64, 1];
    for (weekday, bit) in bits.iter().enumerate() {
        day.weekday = weekday as u32;
        assert_eq!(dow_of(&day), *bit);
    }
}

#[test]
fn todays_bit_is_one_of_the_seven() {
    let bit = get_dow();
    assert!([1, 2, 4, 8, 16, 32, 64].contains(&bit));
}
