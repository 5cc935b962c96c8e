use stock_manager::calendar::{
    day_number, weekday_index, MAX_DAY_NUMBER, MAX_YEAR, MIN_DAY_NUMBER, MIN_YEAR,
};

#[test]
fn day_one_is_january_first_of_year_one() {
    assert_eq!(day_number(1, 1, 1), Some(1));
    assert_eq!(day_number(0, 12, 31), Some(0));
    assert_eq!(day_number(1999, 9, 3), Some(730_000));
}

#[test]
fn day_number_range_matches_year_range() {
    assert_eq!(day_number(MAX_YEAR, 12, 31), Some(MAX_DAY_NUMBER));
    assert_eq!(day_number(MIN_YEAR, 1, 1), Some(MIN_DAY_NUMBER));
    assert_eq!(day_number(MAX_YEAR + 1, 1, 1), None);
    assert_eq!(day_number(MIN_YEAR - 1, 12, 31), None);
}

#[test]
fn only_existing_dates_have_day_numbers() {
    assert!(day_number(2015, 3, 14).is_some());
    assert!(day_number(2015, 0, 14).is_none());
    assert!(day_number(2015, 13, 1).is_none());
    assert!(day_number(2015, 4, 31).is_none());
    assert!(day_number(2015, 4, 0).is_none());
    assert!(day_number(2015, 2, 29).is_none());
    assert!(day_number(2016, 2, 29).is_some());
    assert!(day_number(2000, 2, 29).is_some());
    assert!(day_number(1900, 2, 29).is_none());
    assert!(day_number(-4, 2, 29).is_some());
    assert!(day_number(-100, 2, 29).is_none());
    assert!(day_number(2015, 12, 31).is_some());
    assert!(day_number(2015, 12, 32).is_none());
}

#[test]
fn weekdays_count_from_monday() {
    // 0001-01-01 was a Monday, 1999-09-03 a Friday, 2024-01-07 a Sunday.
    assert_eq!(weekday_index(1), 0);
    assert_eq!(weekday_index(730_000), 4);
    let sunday = day_number(2024, 1, 7).unwrap();
    assert_eq!(weekday_index(sunday), 6);
    assert_eq!(weekday_index(sunday + 1), 0);
    assert_eq!(weekday_index(0), 6);
    assert_eq!(weekday_index(MIN_DAY_NUMBER), ((MIN_DAY_NUMBER as i64 - 1).rem_euclid(7)) as usize);
    assert_eq!(weekday_index(MAX_DAY_NUMBER), ((MAX_DAY_NUMBER as i64 - 1).rem_euclid(7)) as usize);
}

#[test]
fn weekdays_repeat_every_seven_days() {
    let start = day_number(2023, 5, 1).unwrap();
    for d in start..start + 30 {
        assert_eq!(weekday_index(d), weekday_index(d + 7));
    }
}
