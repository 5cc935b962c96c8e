use vstd::prelude::*;
use crate::calendar::{day_number_in_range, weekday_index, weekday_of, MAX_DAY_NUMBER};
use crate::service_error::{ServiceError, ServiceErrorView};

verus! {

/// History length used when a query names none.
pub const DEFAULT_HISTORY_DAYS: i64 = 90;

/// Forecast length used when a query names none.
pub const DEFAULT_FORECAST_DAYS: i64 = 30;

/// The shortest history over which usage is told apart by day of the week.
pub const MIN_HISTORY_DAYS_FOR_SEASONALITY: i64 = 14;

/// How far ahead the day on which stock reaches its minimum is looked for.
pub const MAX_DAYS_TO_MIN_FORECAST: i64 = 365;

/// The query of a forecast request: how many days of history to learn from
/// and how many days to forecast.
#[derive(Debug, Clone, Copy)]
pub struct ForecastQuery {
    pub history_days: Option<i64>,
    pub forecast_days: Option<i64>,
}

/// How the daily usage of an item is forecast.
#[derive(Debug, Clone, Copy, PartialEq, Eq, Structural)]
pub enum ForecastStrategy {
    /// Each day of the week has its own average.
    WeekdaySeasonality,
    /// Every day has the average of the whole history.
    SimpleAverage,
    /// No usage was recorded: nothing is forecast to be used.
    NoData,
}

/// The validated parameters of a forecast.
#[derive(Debug, Clone, Copy)]
pub struct ForecastConfig {
    pub history_days: i64,
    pub forecast_days: i64,
}

/// A value that was asked for, or the default.
pub open spec fn value_or(requested: Option<i64>, default: i64) -> i64 {
    match requested {
        Some(v) => v,
        None => default,
    }
}

impl ForecastConfig {
    /// The parameters of a forecast from the optional query values: missing ones take
    /// their defaults, and both must be positive.
    pub fn from_query(history_days: Option<i64>, forecast_days: Option<i64>) -> (r: Result<
        ForecastConfig,
        ServiceError,
    >)
        ensures
            history_days is None && forecast_days is None ==> (r matches Ok(c) && c.history_days
                == 90 && c.forecast_days == 30),
            (history_days matches Some(h) && h <= 0) ==> r is Err,
            (forecast_days matches Some(f) && f <= 0) ==> r is Err,
            history_days is Some && history_days->0 > 0 && forecast_days is Some && forecast_days->0
                > 0 ==> (r matches Ok(c) && c.history_days == history_days->0 && c.forecast_days
                == forecast_days->0),
            history_days is None && forecast_days is Some && forecast_days->0 > 0 ==> (r matches Ok(
                c,
            ) && c.history_days == 90 && c.forecast_days == forecast_days->0),
            history_days is Some && history_days->0 > 0 && forecast_days is None ==> (r matches Ok(
                c,
            ) && c.history_days == history_days->0 && c.forecast_days == 30),
            ({
                let h = value_or(history_days, DEFAULT_HISTORY_DAYS);
                let f = value_or(forecast_days, DEFAULT_FORECAST_DAYS);
                &&& r is Ok <==> h > 0 && f > 0
                &&& r matches Ok(c) ==> c.history_days == h && c.forecast_days == f
                &&& h <= 0 ==> (r matches Err(e) && e@ == ServiceErrorView::Input(
                    "historyDays must be greater than 0"@,
                ))
                &&& h > 0 && f <= 0 ==> (r matches Err(e) && e@ == ServiceErrorView::Input(
                    "forecastDays must be greater than 0"@,
                ))
            }),
    {
        let history_days = match history_days {
            Some(v) => v,
            None => DEFAULT_HISTORY_DAYS,
        };
        let forecast_days = match forecast_days {
            Some(v) => v,
            None => DEFAULT_FORECAST_DAYS,
        };
        if history_days <= 0 {
            return Err(ServiceError::Input(String::from_str("historyDays must be greater than 0")));
        }
        if forecast_days <= 0 {
            return Err(ServiceError::Input(String::from_str("forecastDays must be greater than 0")));
        }
        Ok(ForecastConfig { history_days, forecast_days })
    }
}

/// The strategy for a history of `history_days` days of which `non_zero_days` saw usage.
pub open spec fn strategy_for(history_days: int, non_zero_days: int) -> ForecastStrategy {
    if non_zero_days == 0 {
        ForecastStrategy::NoData
    } else if history_days >= MIN_HISTORY_DAYS_FOR_SEASONALITY {
        ForecastStrategy::WeekdaySeasonality
    } else {
        ForecastStrategy::SimpleAverage
    }
}

/// Picks the forecast strategy: no usage at all gives no forecast, a history of two
/// weeks or more is told apart by day of the week, a shorter one is averaged.
pub fn select_strategy(history_days: i64, non_zero_days: i64) -> (s: ForecastStrategy)
    ensures
        s == strategy_for(history_days as int, non_zero_days as int),
        non_zero_days == 0 ==> s == ForecastStrategy::NoData,
        non_zero_days != 0 && history_days >= 14 ==> s == ForecastStrategy::WeekdaySeasonality,
        non_zero_days != 0 && history_days < 14 ==> s == ForecastStrategy::SimpleAverage,
{
    if non_zero_days == 0 {
        ForecastStrategy::NoData
    } else if history_days >= MIN_HISTORY_DAYS_FOR_SEASONALITY {
        ForecastStrategy::WeekdaySeasonality
    } else {
        ForecastStrategy::SimpleAverage
    }
}

/// The usage of an item on one day. `date` is a day number, January 1 of year 1 being day 1.
#[derive(Debug, Clone, Copy)]
pub struct DailyUsage {
    pub date: i32,
    pub usage: i32,
}

/// Every day of the history is a day that the calendar has.
pub open spec fn dates_in_range(history: Seq<DailyUsage>) -> bool {
    forall|i: int| 0 <= i < history.len() ==> day_number_in_range(#[trigger] history[i].date as int)
}

/// The usage of the whole history.
pub open spec fn usage_total(history: Seq<DailyUsage>) -> int
    decreases history.len(),
{
    if history.len() == 0 {
        0
    } else {
        usage_total(history.drop_last()) + history.last().usage
    }
}

/// The usage of the days of the history that fall on day `k` of the week.
pub open spec fn weekday_usage_total(history: Seq<DailyUsage>, k: int) -> int
    decreases history.len(),
{
    if history.len() == 0 {
        0
    } else {
        weekday_usage_total(history.drop_last(), k) + if weekday_of(history.last().date as int) == k {
            history.last().usage as int
        } else {
            0
        }
    }
}

/// The number of days of the history that fall on day `k` of the week.
pub open spec fn weekday_day_count(history: Seq<DailyUsage>, k: int) -> nat
    decreases history.len(),
{
    if history.len() == 0 {
        0
    } else {
        weekday_day_count(history.drop_last(), k) + if weekday_of(history.last().date as int) == k {
            1nat
        } else {
            0nat
        }
    }
}

/// The number of days of the history on which some stock was used.
pub open spec fn non_zero_day_count(history: Seq<DailyUsage>) -> nat
    decreases history.len(),
{
    if history.len() == 0 {
        0
    } else {
        non_zero_day_count(history.drop_last()) + if history.last().usage > 0 {
            1nat
        } else {
            0nat
        }
    }
}

/// An average daily usage, as the quotient of a total usage by a number of days.
#[derive(Debug, Clone, Copy)]
pub struct UsageRatio {
    pub numerator: i128,
    pub denominator: u64,
}

/// The average usage per day over the whole history; nothing over an empty one.
pub open spec fn overall_ratio(history: Seq<DailyUsage>) -> (int, int) {
    if history.len() == 0 {
        (0, 1)
    } else {
        (usage_total(history), history.len() as int)
    }
}

/// The average usage forecast for day `k` of the week under a strategy. By weekday,
/// a day of the week that the history never saw takes the overall average.
pub open spec fn weekday_ratio(history: Seq<DailyUsage>, strategy: ForecastStrategy, k: int) -> (
    int,
    int,
) {
    match strategy {
        ForecastStrategy::WeekdaySeasonality => if weekday_day_count(history, k) == 0 {
            overall_ratio(history)
        } else {
            (weekday_usage_total(history, k), weekday_day_count(history, k) as int)
        },
        ForecastStrategy::SimpleAverage => overall_ratio(history),
        ForecastStrategy::NoData => (0, 1),
    }
}

/// The number of days of the history on which some stock was used.
pub fn count_non_zero_days(history: &Vec<DailyUsage>) -> (n: i64)
    requires
        history@.len() <= i64::MAX,
    ensures
        n == non_zero_day_count(history@),
        n == history@.filter(has_usage()).len(),
        0 <= n <= history@.len(),
{
    let mut n: i64 = 0;
    let len = history.len();
    for i in 0..len
        invariant
            len == history@.len(),
            len <= i64::MAX,
            n == non_zero_day_count(history@.subrange(0, i as int)),
            0 <= n <= i,
    {
        assert(history@.subrange(0, i + 1).drop_last() =~= history@.subrange(0, i as int));
        if history[i].usage > 0 {
            n = n + 1;
        }
    }
    assert(history@.subrange(0, len as int) =~= history@);
    proof {
        lemma_non_zero_count_is_filter(history@);
    }
    n
}

/// The usage totals and day counts of each day of the week, and of the whole history.
fn weekday_sums(history: &Vec<DailyUsage>) -> (r: (Vec<i128>, Vec<u64>, i128))
    requires
        dates_in_range(history@),
    ensures
        r.0@.len() == 7,
        r.1@.len() == 7,
        forall|k: int| 0 <= k < 7 ==> r.0@[k] == weekday_usage_total(history@, k),
        forall|k: int| 0 <= k < 7 ==> r.1@[k] == weekday_day_count(history@, k),
        r.2 == usage_total(history@),
{
    let mut totals: Vec<i128> = vec![0, 0, 0, 0, 0, 0, 0];
    let mut counts: Vec<u64> = vec![0, 0, 0, 0, 0, 0, 0];
    let mut total: i128 = 0;
    let len = history.len();
    for i in 0..len
        invariant
            len == history@.len(),
            dates_in_range(history@),
            totals@.len() == 7,
            counts@.len() == 7,
            forall|k: int|
                0 <= k < 7 ==> totals@[k] == weekday_usage_total(history@.subrange(0, i as int), k),
            forall|k: int|
                0 <= k < 7 ==> counts@[k] == weekday_day_count(history@.subrange(0, i as int), k),
            forall|k: int| 0 <= k < 7 ==> -(i * 2147483648) <= #[trigger] totals@[k] <= i * 2147483648,
            forall|k: int| 0 <= k < 7 ==> #[trigger] counts@[k] <= i,
            total == usage_total(history@.subrange(0, i as int)),
            -(i * 2147483648) <= total <= i * 2147483648,
    {
        let ghost before = history@.subrange(0, i as int);
        let ghost after = history@.subrange(0, i + 1);
        assert(after.drop_last() =~= before);
        assert(after.last() == history@[i as int]);
        let entry = history[i];
        assert(day_number_in_range(history@[i as int].date as int));
        let w = weekday_index(entry.date);
        let t = totals[w] + entry.usage as i128;
        totals.set(w, t);
        let c = counts[w] + 1;
        counts.set(w, c);
        total = total + entry.usage as i128;
        assert forall|k: int| 0 <= k < 7 implies totals@[k] == weekday_usage_total(after, k) by {
            if k != w as int {
                assert(weekday_of(entry.date as int) != k);
            }
        }
        assert forall|k: int| 0 <= k < 7 implies counts@[k] == weekday_day_count(after, k) by {
            if k != w as int {
                assert(weekday_of(entry.date as int) != k);
            }
        }
    }
    assert(history@.subrange(0, len as int) =~= history@);
    (totals, counts, total)
}

/// The average daily usage forecast for each day of the week, Monday first, under a strategy.
pub fn weekday_usage_ratios(history: &Vec<DailyUsage>, strategy: ForecastStrategy) -> (r: Vec<UsageRatio>)
    requires
        dates_in_range(history@),
    ensures
        r@.len() == 7,
        forall|k: int|
            0 <= k < 7 ==> (r@[k].numerator as int, r@[k].denominator as int) == weekday_ratio(
                history@,
                strategy,
                k,
            ),
        strategy == ForecastStrategy::WeekdaySeasonality ==> forall|k: int|
            0 <= k < 7 && weekday_day_count(history@, k) > 0 ==> r@[k].numerator
                == weekday_usage_total(history@, k) && r@[k].denominator == weekday_day_count(
                history@,
                k,
            ),
        strategy == ForecastStrategy::WeekdaySeasonality ==> forall|k: int|
            0 <= k < 7 && weekday_day_count(history@, k) == 0 && history@.len() > 0
                ==> r@[k].numerator == usage_total(history@) && r@[k].denominator
                == history@.len(),
        strategy == ForecastStrategy::SimpleAverage && history@.len() > 0 ==> forall|k: int|
            0 <= k < 7 ==> r@[k].numerator == usage_total(history@) && r@[k].denominator
                == history@.len(),
        strategy == ForecastStrategy::NoData || history@.len() == 0 ==> forall|k: int|
            0 <= k < 7 ==> r@[k].numerator == 0 && r@[k].denominator == 1,
{
    let (totals, counts, total) = weekday_sums(history);
    let len = history.len();
    let overall = if len == 0 {
        UsageRatio { numerator: 0, denominator: 1 }
    } else {
        UsageRatio { numerator: total, denominator: len as u64 }
    };
    let mut ratios: Vec<UsageRatio> = Vec::new();
    for k in 0..7
        invariant
            ratios@.len() == k,
            totals@.len() == 7,
            counts@.len() == 7,
            forall|j: int| 0 <= j < 7 ==> totals@[j] == weekday_usage_total(history@, j),
            forall|j: int| 0 <= j < 7 ==> counts@[j] == weekday_day_count(history@, j),
            (overall.numerator as int, overall.denominator as int) == overall_ratio(history@),
            forall|j: int|
                0 <= j < k ==> (ratios@[j].numerator as int, ratios@[j].denominator as int)
                    == weekday_ratio(history@, strategy, j),
    {
        let ratio = match strategy {
            ForecastStrategy::WeekdaySeasonality => if counts[k] == 0 {
                overall
            } else {
                UsageRatio { numerator: totals[k], denominator: counts[k] }
            },
            ForecastStrategy::SimpleAverage => overall,
            ForecastStrategy::NoData => UsageRatio { numerator: 0, denominator: 1 },
        };
        ratios.push(ratio);
    }
    assert forall|k: int| 0 <= k < 7 implies (ratios@[k].numerator as int, ratios@[k].denominator as int)
        == weekday_ratio(history@, strategy, k) by {}
    assert forall|k: int|
        strategy == ForecastStrategy::WeekdaySeasonality && 0 <= k < 7 && weekday_day_count(
            history@,
            k,
        ) > 0 implies ratios@[k].numerator == weekday_usage_total(history@, k)
        && ratios@[k].denominator == weekday_day_count(history@, k) by {
        assert((ratios@[k].numerator as int, ratios@[k].denominator as int) == weekday_ratio(
            history@,
            strategy,
            k,
        ));
    }
    assert forall|k: int|
        strategy == ForecastStrategy::WeekdaySeasonality && 0 <= k < 7 && weekday_day_count(
            history@,
            k,
        ) == 0 && history@.len() > 0 implies ratios@[k].numerator == usage_total(history@)
        && ratios@[k].denominator == history@.len() by {
        assert((ratios@[k].numerator as int, ratios@[k].denominator as int) == weekday_ratio(
            history@,
            strategy,
            k,
        ));
    }
    assert forall|k: int|
        strategy == ForecastStrategy::SimpleAverage && history@.len() > 0 && 0 <= k < 7 implies ratios@[k].numerator
        == usage_total(history@) && ratios@[k].denominator == history@.len() by {
        assert((ratios@[k].numerator as int, ratios@[k].denominator as int) == weekday_ratio(
            history@,
            strategy,
            k,
        ));
    }
    assert forall|k: int|
        (strategy == ForecastStrategy::NoData || history@.len() == 0) && 0 <= k < 7 implies ratios@[k].numerator
        == 0 && ratios@[k].denominator == 1 by {
        assert((ratios@[k].numerator as int, ratios@[k].denominator as int) == weekday_ratio(
            history@,
            strategy,
            k,
        ));
        if history@.len() == 0 {
            assert(weekday_day_count(history@, k) == 0);
        }
    }
    ratios
}

/// The first and last day of the history that a forecast made on day `today`
/// learns from: the `history_days` days that end today.
pub fn history_window(today: i32, history_days: i64) -> (w: (i32, i32))
    requires
        day_number_in_range(today as int),
        day_number_in_range(today - (history_days - 1)),
    ensures
        w.0 == today - (history_days - 1),
        w.1 == today,
        w.1 - w.0 + 1 == history_days,
{
    let start = today as i64 - (history_days - 1);
    (start as i32, today)
}

/// A day of a forecast and its day of the week, Monday being 0.
#[derive(Debug, Clone, Copy)]
pub struct ForecastDay {
    pub date: i32,
    pub weekday: usize,
}

/// The `days` days that follow day `last_day`, each with its day of the week.
pub fn days_after(last_day: i32, days: i64) -> (r: Vec<ForecastDay>)
    requires
        day_number_in_range(last_day as int),
        days <= 0 || last_day + days <= MAX_DAY_NUMBER,
    ensures
        r@.len() == if days > 0 { days as int } else { 0 },
        forall|k: int|
            0 <= k < r@.len() ==> (#[trigger] r@[k]).date == last_day + 1 + k && r@[k].weekday
                == weekday_of(last_day + 1 + k),
{
    let mut r: Vec<ForecastDay> = Vec::new();
    let mut offset: i64 = 0;
    while offset < days
        invariant
            day_number_in_range(last_day as int),
            days <= 0 || last_day + days <= MAX_DAY_NUMBER,
            0 <= offset,
            days > 0 ==> offset <= days,
            days <= 0 ==> offset == 0,
            r@.len() == offset,
            forall|k: int|
                0 <= k < r@.len() ==> (#[trigger] r@[k]).date == last_day + 1 + k && r@[k].weekday
                    == weekday_of(last_day + 1 + k),
        decreases days - offset,
    {
        let date = (last_day as i64 + offset + 1) as i32;
        let weekday = weekday_index(date);
        r.push(ForecastDay { date, weekday });
        offset = offset + 1;
    }
    r
}

/// The day counts of the seven days of the week, added up.
pub open spec fn week_day_count(history: Seq<DailyUsage>) -> nat {
    weekday_day_count(history, 0) + weekday_day_count(history, 1) + weekday_day_count(history, 2)
        + weekday_day_count(history, 3) + weekday_day_count(history, 4) + weekday_day_count(
        history,
        5,
    ) + weekday_day_count(history, 6)
}

/// The usage totals of the seven days of the week, added up.
pub open spec fn week_usage_total(history: Seq<DailyUsage>) -> int {
    weekday_usage_total(history, 0) + weekday_usage_total(history, 1) + weekday_usage_total(
        history,
        2,
    ) + weekday_usage_total(history, 3) + weekday_usage_total(history, 4) + weekday_usage_total(
        history,
        5,
    ) + weekday_usage_total(history, 6)
}

/// Every day of the history falls on exactly one day of the week: the days of the week
/// share out the days and the usage of the history between them.
pub proof fn lemma_weekdays_partition_history(history: Seq<DailyUsage>)
    ensures
        week_day_count(history) == history.len(),
        week_usage_total(history) == usage_total(history),
    decreases history.len(),
{
    if history.len() > 0 {
        lemma_weekdays_partition_history(history.drop_last());
        let w = weekday_of(history.last().date as int);
        assert(0 <= w < 7);
    }
}

/// No more days saw usage than the history has, so an empty history forecasts nothing.
pub proof fn lemma_non_zero_days_bounded(history: Seq<DailyUsage>)
    ensures
        non_zero_day_count(history) <= history.len(),
        history.len() == 0 ==> strategy_for(0, non_zero_day_count(history) as int)
            == ForecastStrategy::NoData,
    decreases history.len(),
{
    if history.len() > 0 {
        lemma_non_zero_days_bounded(history.drop_last());
    }
}

/// Every forecast average divides by a positive number of days.
pub proof fn lemma_ratio_denominators_positive(
    history: Seq<DailyUsage>,
    strategy: ForecastStrategy,
    k: int,
)
    ensures
        weekday_ratio(history, strategy, k).1 > 0,
{
}

/// What a forecast learns from the usage history of an item: how long the history is,
/// on how many days stock was used, the strategy that follows, and the average daily
/// usage of each day of the week under it, Monday first.
#[derive(Debug, Clone)]
pub struct UsageProfile {
    pub strategy: ForecastStrategy,
    pub history_days: i64,
    pub non_zero_days: i64,
    pub weekday_ratios: Vec<UsageRatio>,
}

/// Learns the usage profile of a history.
pub fn usage_profile(history: &Vec<DailyUsage>) -> (p: UsageProfile)
    requires
        dates_in_range(history@),
        history@.len() <= i64::MAX,
    ensures
        p.history_days == history@.len(),
        p.non_zero_days == non_zero_day_count(history@),
        p.strategy == strategy_for(history@.len() as int, non_zero_day_count(history@) as int),
        p.non_zero_days == history@.filter(has_usage()).len(),
        p.non_zero_days == 0 ==> p.strategy == ForecastStrategy::NoData,
        p.non_zero_days != 0 && history@.len() >= 14 ==> p.strategy
            == ForecastStrategy::WeekdaySeasonality,
        p.non_zero_days != 0 && history@.len() < 14 ==> p.strategy == ForecastStrategy::SimpleAverage,
        p.weekday_ratios@.len() == 7,
        forall|k: int|
            0 <= k < 7 ==> (p.weekday_ratios@[k].numerator as int, p.weekday_ratios@[k].denominator as int)
                == weekday_ratio(history@, p.strategy, k),
{
    let non_zero_days = count_non_zero_days(history);
    let history_days = history.len() as i64;
    let strategy = select_strategy(history_days, non_zero_days);
    let weekday_ratios = weekday_usage_ratios(history, strategy);
    UsageProfile { strategy, history_days, non_zero_days, weekday_ratios }
}

/// Whether stock was used on a day.
pub open spec fn has_usage() -> spec_fn(DailyUsage) -> bool {
    |d: DailyUsage| d.usage > 0
}

/// The days with usage are the days of the history that the usage filter keeps.
pub proof fn lemma_non_zero_count_is_filter(history: Seq<DailyUsage>)
    ensures
        non_zero_day_count(history) == history.filter(has_usage()).len(),
    decreases history.len(),
{
    reveal_with_fuel(Seq::filter, 1);
    if history.len() > 0 {
        lemma_non_zero_count_is_filter(history.drop_last());
    }
}

/// The strategy follows the history alone: no usage gives no forecast; with some usage,
/// two weeks or more of history are told apart by weekday and a shorter one is averaged.
pub proof fn lemma_strategy_choice(history_days: int, non_zero_days: int)
    ensures
        non_zero_days == 0 ==> strategy_for(history_days, non_zero_days) == ForecastStrategy::NoData,
        non_zero_days != 0 && history_days >= 14 ==> strategy_for(history_days, non_zero_days)
            == ForecastStrategy::WeekdaySeasonality,
        non_zero_days != 0 && history_days < 14 ==> strategy_for(history_days, non_zero_days)
            == ForecastStrategy::SimpleAverage,
        non_zero_days != 0 ==> strategy_for(history_days, non_zero_days) != ForecastStrategy::NoData,
{
}

/// The sums over a history split over any two parts of it: each day counts once, in its
/// own part.
pub proof fn lemma_sums_split(a: Seq<DailyUsage>, b: Seq<DailyUsage>, k: int)
    ensures
        weekday_usage_total(a + b, k) == weekday_usage_total(a, k) + weekday_usage_total(b, k),
        weekday_day_count(a + b, k) == weekday_day_count(a, k) + weekday_day_count(b, k),
        usage_total(a + b) == usage_total(a) + usage_total(b),
        non_zero_day_count(a + b) == non_zero_day_count(a) + non_zero_day_count(b),
    decreases b.len(),
{
    if b.len() > 0 {
        lemma_sums_split(a, b.drop_last(), k);
        assert((a + b).drop_last() =~= a + b.drop_last());
        assert((a + b).last() == b.last());
    } else {
        assert(a + b =~= a);
    }
}

/// A single day adds its usage to the total of its own day of the week, and to no other;
/// it counts as a day with usage exactly when stock was used on it.
pub proof fn lemma_single_day_sums(d: DailyUsage, k: int)
    ensures
        weekday_of(d.date as int) == k ==> weekday_usage_total(seq![d], k) == d.usage
            && weekday_day_count(seq![d], k) == 1,
        weekday_of(d.date as int) != k ==> weekday_usage_total(seq![d], k) == 0
            && weekday_day_count(seq![d], k) == 0,
        usage_total(seq![d]) == d.usage,
        non_zero_day_count(seq![d]) == if d.usage > 0 { 1int } else { 0int },
{
    let s = seq![d];
    assert(s.drop_last() =~= Seq::<DailyUsage>::empty());
    assert(s.last() == d);
    assert(weekday_usage_total(s.drop_last(), k) == 0);
    assert(weekday_day_count(s.drop_last(), k) == 0);
    assert(usage_total(s.drop_last()) == 0);
    assert(non_zero_day_count(s.drop_last()) == 0);
}

/// By weekday, a day added to the history changes only the average of its own day of the
/// week (once that day of the week has been seen), and adds its usage and one day to it.
pub proof fn lemma_weekday_ratio_grows_by_own_days(history: Seq<DailyUsage>, d: DailyUsage, k: int)
    requires
        weekday_day_count(history, k) > 0,
    ensures
        weekday_of(d.date as int) != k ==> weekday_ratio(
            history.push(d),
            ForecastStrategy::WeekdaySeasonality,
            k,
        ) == weekday_ratio(history, ForecastStrategy::WeekdaySeasonality, k),
        weekday_of(d.date as int) == k ==> weekday_ratio(
            history.push(d),
            ForecastStrategy::WeekdaySeasonality,
            k,
        ) == (
            weekday_ratio(history, ForecastStrategy::WeekdaySeasonality, k).0 + d.usage,
            weekday_ratio(history, ForecastStrategy::WeekdaySeasonality, k).1 + 1,
        ),
{
    assert(history.push(d).drop_last() =~= history);
}

} // verus!
