use mask::date::{date_exists, days_in_month, is_leap_year, CalendarDate};

#[test]
fn leap_years_follow_gregorian_rules() {
    assert!(is_leap_year(2020));
    assert!(is_leap_year(2000));
    assert!(!is_leap_year(1900));
    assert!(!is_leap_year(2021));
    assert!(!is_leap_year(2100));
}

#[test]
fn month_lengths_match_the_calendar() {
    assert_eq!(days_in_month(2021, 1), 31);
    assert_eq!(days_in_month(2021, 2), 28);
    assert_eq!(days_in_month(2020, 2), 29);
    assert_eq!(days_in_month(2021, 4), 30);
    assert_eq!(days_in_month(2021, 12), 31);
}

#[test]
fn date_validity_is_calendar_arithmetic() {
    assert!(date_exists(2021, 12, 23));
    assert!(date_exists(2020, 2, 29));
    assert!(!date_exists(2021, 2, 29));
    assert!(!date_exists(2100, 2, 29));
    assert!(!date_exists(2021, 4, 31));
    assert!(!date_exists(2021, 13, 1));
    assert!(!date_exists(2021, 0, 1));
    assert!(!date_exists(2021, 12, 0));
    assert!(!date_exists(2021, 12, 32));
    assert!(!date_exists(0, 1, 1));
    assert!(!date_exists(10000, 1, 1));
}

#[test]
fn successor_steps_over_month_and_year_ends() {
    let d = CalendarDate { year: 2021, month: 12, day: 23 };
    assert_eq!(d.next_day(), Some(CalendarDate { year: 2021, month: 12, day: 24 }));
    let end_of_month = CalendarDate { year: 2021, month: 11, day: 30 };
    assert_eq!(end_of_month.next_day(), Some(CalendarDate { year: 2021, month: 12, day: 1 }));
    let end_of_year = CalendarDate { year: 2021, month: 12, day: 31 };
    assert_eq!(end_of_year.next_day(), Some(CalendarDate { year: 2022, month: 1, day: 1 }));
    let last = CalendarDate { year: 9999, month: 12, day: 31 };
    assert_eq!(last.next_day(), None);
}

#[test]
fn predecessor_steps_over_month_and_year_starts() {
    let d = CalendarDate { year: 2021, month: 12, day: 23 };
    assert_eq!(d.prev_day(), Some(CalendarDate { year: 2021, month: 12, day: 22 }));
    let start_of_month = CalendarDate { year: 2021, month: 3, day: 1 };
    assert_eq!(start_of_month.prev_day(), Some(CalendarDate { year: 2021, month: 2, day: 28 }));
    let start_of_year = CalendarDate { year: 2022, month: 1, day: 1 };
    assert_eq!(start_of_year.prev_day(), Some(CalendarDate { year: 2021, month: 12, day: 31 }));
    let first = CalendarDate { year: 1, month: 1, day: 1 };
    assert_eq!(first.prev_day(), None);
}

#[test]
fn day_numbers_anchor_at_the_first_supported_date() {
    let first = CalendarDate { year: 1, month: 1, day: 1 };
    assert_eq!(first.day_number(), 0);
    let jan31 = CalendarDate { year: 1, month: 1, day: 31 };
    assert_eq!(jan31.day_number(), 30);
    let feb1 = CalendarDate { year: 1, month: 2, day: 1 };
    assert_eq!(feb1.day_number(), 31);
    let year2 = CalendarDate { year: 2, month: 1, day: 1 };
    assert_eq!(year2.day_number(), 365);
}

#[test]
fn weekdays_match_the_real_calendar() {
    // 2021-12-20 was a Monday, 2021-12-23 a Thursday.
    assert_eq!(CalendarDate { year: 2021, month: 12, day: 20 }.weekday(), 0);
    assert_eq!(CalendarDate { year: 2021, month: 12, day: 23 }.weekday(), 3);
    assert_eq!(CalendarDate { year: 2021, month: 12, day: 26 }.weekday(), 6);
    // The first supported date is a Monday.
    assert_eq!(CalendarDate { year: 1, month: 1, day: 1 }.weekday(), 0);
}
