use stock_manager::calendar::{day_number, MAX_DAY_NUMBER};
use stock_manager::forecast::{
    count_non_zero_days, days_after, history_window, select_strategy, usage_profile,
    weekday_usage_ratios, DailyUsage, ForecastConfig, ForecastStrategy,
};
use stock_manager::service_error::ServiceError;

fn input_message(r: Result<ForecastConfig, ServiceError>) -> String {
    match r {
        Err(ServiceError::Input(msg)) => msg,
        _ => panic!("expected an input error"),
    }
}

#[test]
fn missing_query_values_take_defaults() {
    let c = ForecastConfig::from_query(None, None).unwrap();
    assert_eq!(c.history_days, 90);
    assert_eq!(c.forecast_days, 30);
    let c = ForecastConfig::from_query(Some(7), None).unwrap();
    assert_eq!((c.history_days, c.forecast_days), (7, 30));
    let c = ForecastConfig::from_query(None, Some(1)).unwrap();
    assert_eq!((c.history_days, c.forecast_days), (90, 1));
}

#[test]
fn query_values_must_be_positive() {
    assert_eq!(
        input_message(ForecastConfig::from_query(Some(0), Some(0))),
        "historyDays must be greater than 0"
    );
    assert_eq!(
        input_message(ForecastConfig::from_query(Some(-3), None)),
        "historyDays must be greater than 0"
    );
    assert_eq!(
        input_message(ForecastConfig::from_query(None, Some(0))),
        "forecastDays must be greater than 0"
    );
}

#[test]
fn strategy_follows_history() {
    assert_eq!(select_strategy(90, 0), ForecastStrategy::NoData);
    assert_eq!(select_strategy(0, 0), ForecastStrategy::NoData);
    assert_eq!(select_strategy(14, 1), ForecastStrategy::WeekdaySeasonality);
    assert_eq!(select_strategy(13, 5), ForecastStrategy::SimpleAverage);
}

fn history(start: i32, usages: &[i32]) -> Vec<DailyUsage> {
    usages
        .iter()
        .enumerate()
        .map(|(i, u)| DailyUsage { date: start + i as i32, usage: *u })
        .collect()
}

#[test]
fn non_zero_days_are_counted() {
    let h = history(1, &[0, 3, 0, -2, 5]);
    assert_eq!(count_non_zero_days(&h), 2);
    assert_eq!(count_non_zero_days(&Vec::new()), 0);
}

#[test]
fn simple_average_uses_whole_history() {
    let h = history(1, &[2, 4, 0, 6]);
    let r = weekday_usage_ratios(&h, ForecastStrategy::SimpleAverage);
    assert_eq!(r.len(), 7);
    for ratio in &r {
        assert_eq!((ratio.numerator, ratio.denominator), (12, 4));
    }
}

#[test]
fn no_data_forecasts_nothing() {
    let h = history(1, &[0, 0]);
    for ratio in weekday_usage_ratios(&h, ForecastStrategy::NoData) {
        assert_eq!((ratio.numerator, ratio.denominator), (0, 1));
    }
    for ratio in weekday_usage_ratios(&Vec::new(), ForecastStrategy::SimpleAverage) {
        assert_eq!((ratio.numerator, ratio.denominator), (0, 1));
    }
}

#[test]
fn seasonality_averages_each_weekday() {
    // Day 1 is a Monday: two Mondays (1 and 8) and one of every other day.
    let h = history(1, &[10, 1, 2, 3, 4, 5, 6, 20]);
    let r = weekday_usage_ratios(&h, ForecastStrategy::WeekdaySeasonality);
    assert_eq!((r[0].numerator, r[0].denominator), (30, 2));
    assert_eq!((r[1].numerator, r[1].denominator), (1, 1));
    assert_eq!((r[6].numerator, r[6].denominator), (6, 1));
}

#[test]
fn unseen_weekday_takes_overall_average() {
    // Mondays only (days 1, 8, 15).
    let h = vec![
        DailyUsage { date: 1, usage: 3 },
        DailyUsage { date: 8, usage: 4 },
        DailyUsage { date: 15, usage: 5 },
    ];
    let r = weekday_usage_ratios(&h, ForecastStrategy::WeekdaySeasonality);
    assert_eq!((r[0].numerator, r[0].denominator), (12, 3));
    assert_eq!((r[3].numerator, r[3].denominator), (12, 3));
}

#[test]
fn large_usages_do_not_overflow() {
    let h = history(1, &[i32::MAX, i32::MAX, i32::MIN]);
    let r = weekday_usage_ratios(&h, ForecastStrategy::SimpleAverage);
    assert_eq!(r[0].numerator, i32::MAX as i128 * 2 + i32::MIN as i128);
}

#[test]
fn weekday_counts_add_up_to_history_length() {
    let start = day_number(2024, 3, 1).unwrap();
    let h = history(start, &[1; 40]);
    let r = weekday_usage_ratios(&h, ForecastStrategy::WeekdaySeasonality);
    let days: u64 = r.iter().map(|x| x.denominator).sum();
    let total: i128 = r.iter().map(|x| x.numerator).sum();
    assert_eq!(days, 40);
    assert_eq!(total, 40);
}

#[test]
fn profile_of_a_short_history_is_averaged() {
    let p = usage_profile(&history(1, &[0, 2, 0]));
    assert_eq!(p.history_days, 3);
    assert_eq!(p.non_zero_days, 1);
    assert_eq!(p.strategy, ForecastStrategy::SimpleAverage);
    assert_eq!((p.weekday_ratios[2].numerator, p.weekday_ratios[2].denominator), (2, 3));
    let p = usage_profile(&history(1, &[1; 14]));
    assert_eq!(p.strategy, ForecastStrategy::WeekdaySeasonality);
    let p = usage_profile(&Vec::new());
    assert_eq!(p.strategy, ForecastStrategy::NoData);
}

#[test]
fn history_window_ends_today() {
    let today = day_number(2024, 5, 10).unwrap();
    let (start, end) = history_window(today, 90);
    assert_eq!(end, today);
    assert_eq!(start, day_number(2024, 2, 11).unwrap());
    assert_eq!(history_window(today, 1), (today, today));
}

#[test]
fn forecast_days_follow_the_history() {
    let end = day_number(2024, 1, 7).unwrap(); // a Sunday
    let days = days_after(end, 3);
    assert_eq!(days.len(), 3);
    assert_eq!(days[0].date, end + 1);
    assert_eq!(days[0].weekday, 0);
    assert_eq!(days[2].weekday, 2);
    assert!(days_after(end, 0).is_empty());
    assert!(days_after(end, -4).is_empty());
    assert_eq!(days_after(MAX_DAY_NUMBER - 1, 1)[0].date, MAX_DAY_NUMBER);
}

#[test]
fn every_average_divides_by_some_days() {
    let histories = vec![Vec::new(), history(1, &[0, 0, 0]), history(3, &[5; 20]), history(1, &[1, 2])];
    for h in &histories {
        for strategy in [
            ForecastStrategy::WeekdaySeasonality,
            ForecastStrategy::SimpleAverage,
            ForecastStrategy::NoData,
        ] {
            for ratio in weekday_usage_ratios(h, strategy) {
                assert!(ratio.denominator > 0);
            }
        }
    }
}
