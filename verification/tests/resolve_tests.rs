use mask::date::CalendarDate;
use mask::err::MaskErr;
use mask::resolve::{PartialDate, ResolvedDate};

#[test]
fn full_day_resolves_to_day_key_with_day_pattern() {
    let input = PartialDate { year: 2021, month: 12, day: Some(12) };
    let resolved = input.resolve().unwrap();
    assert_eq!(resolved, ResolvedDate::Day(CalendarDate { year: 2021, month: 12, day: 12 }));
    assert_eq!(input.build_date().unwrap(), "2021-12-12");
    assert_eq!(input.build_date_sql_like().unwrap(), "2021-12-12%");
}

#[test]
fn missing_day_resolves_to_month_key_with_month_pattern() {
    let input = PartialDate { year: 2022, month: 1, day: None };
    let resolved = input.resolve().unwrap();
    assert_eq!(resolved, ResolvedDate::Month { year: 2022, month: 1 });
    assert_eq!(input.build_date().unwrap(), "2022-01");
    assert_eq!(input.build_date_sql_like().unwrap(), "2022-01%");
}

#[test]
fn rendering_zero_pads_single_digit_fields() {
    let input = PartialDate { year: 987, month: 1, day: Some(8) };
    assert_eq!(input.build_date().unwrap(), "0987-01-08");
    assert_eq!(input.build_date_sql_like().unwrap(), "0987-01-08%");
}

#[test]
fn day_out_of_range_for_any_month_is_invalid() {
    let input = PartialDate { year: 2021, month: 12, day: Some(50) };
    assert!(matches!(input.resolve(), Err(MaskErr::InvalidDate)));
    assert!(matches!(input.build_date_sql_like(), Err(MaskErr::InvalidDate)));
}

#[test]
fn month_out_of_range_is_invalid() {
    let input = PartialDate { year: 2021, month: -1000, day: Some(12) };
    assert!(matches!(input.resolve(), Err(MaskErr::InvalidDate)));
    let no_day = PartialDate { year: 2021, month: 32, day: None };
    assert!(matches!(no_day.resolve(), Err(MaskErr::InvalidDate)));
}

#[test]
fn an_absurdly_large_day_is_invalid() {
    let input = PartialDate { year: 2021, month: 12, day: Some(2222222) };
    assert!(matches!(input.resolve(), Err(MaskErr::InvalidDate)));
}

#[test]
fn day_invalid_by_calendar_not_by_range_alone() {
    // Day 31 is in range for some months but not for April.
    let input = PartialDate { year: 2021, month: 4, day: Some(31) };
    assert!(matches!(input.resolve(), Err(MaskErr::InvalidDate)));
    // February 29 exists only in leap years.
    let feb = PartialDate { year: 2021, month: 2, day: Some(29) };
    assert!(matches!(feb.resolve(), Err(MaskErr::InvalidDate)));
    let leap_feb = PartialDate { year: 2020, month: 2, day: Some(29) };
    assert!(leap_feb.resolve().is_ok());
}

#[test]
fn resolving_twice_yields_identical_results() {
    let inputs = [
        PartialDate { year: 2021, month: 12, day: Some(23) },
        PartialDate { year: 2022, month: 1, day: None },
        PartialDate { year: 2021, month: 12, day: Some(50) },
    ];
    for input in inputs {
        let first = input.resolve();
        let second = input.resolve();
        assert_eq!(first.is_ok(), second.is_ok());
        if let (Ok(a), Ok(b)) = (&first, &second) {
            assert_eq!(a, b);
        }
        let p1 = input.build_date_sql_like();
        let p2 = input.build_date_sql_like();
        assert_eq!(p1.ok(), p2.ok());
    }
}

#[test]
fn like_patterns_are_anchored_with_one_trailing_wildcard() {
    let day = PartialDate { year: 2021, month: 12, day: Some(12) };
    let pattern = day.build_date_sql_like().unwrap();
    assert!(!pattern.starts_with('%'));
    assert!(pattern.ends_with('%'));
    assert_eq!(pattern.matches('%').count(), 1);
    let month = PartialDate { year: 2021, month: 12, day: None };
    let pattern = month.build_date_sql_like().unwrap();
    assert!(!pattern.starts_with('%'));
    assert!(pattern.ends_with('%'));
    assert_eq!(pattern.matches('%').count(), 1);
}

#[test]
fn getters_expose_the_request_fields() {
    let input = PartialDate { year: 2021, month: 12, day: Some(23) };
    assert_eq!(input.get_year(), 2021);
    assert_eq!(input.get_month(), 12);
    assert_eq!(input.get_day(), Some(23));
    let no_day = PartialDate { year: 2022, month: 1, day: None };
    assert_eq!(no_day.get_day(), None);
}
