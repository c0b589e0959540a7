use desktop_widget_rs::stock::StockClient;
use desktop_widget_rs::timeframe::{
    daily_windows, FetchPlan, Resolution, Span, Timeframe, WindowRequest, SECONDS_PER_DAY,
    WEEK_DAYS,
};

const ALL: [Timeframe; 7] = [
    Timeframe::OneDay,
    Timeframe::OneWeek,
    Timeframe::OneMonth,
    Timeframe::ThreeMonths,
    Timeframe::SixMonths,
    Timeframe::OneYear,
    Timeframe::YearToDate,
];

#[test]
fn labels_of_the_timeframes() {
    let labels: Vec<&str> = ALL.iter().map(|tf| tf.as_str()).collect();
    assert_eq!(labels, vec!["1D", "1W", "1M", "3M", "6M", "1Y", "YTD"]);
}

#[test]
fn every_label_reads_back() {
    for tf in ALL {
        assert_eq!(Timeframe::from_code(tf.as_str()), Some(tf));
    }
}

#[test]
fn unknown_labels_read_as_nothing() {
    assert_eq!(Timeframe::from_code(""), None);
    assert_eq!(Timeframe::from_code("1d"), None);
    assert_eq!(Timeframe::from_code("2W"), None);
    assert_eq!(Timeframe::from_code("YTD "), None);
}

#[test]
fn plans_of_the_timeframes() {
    assert_eq!(
        Timeframe::OneDay.plan(),
        FetchPlan::Single { resolution: Resolution::FiveMinutes, span: Span::Day }
    );
    assert_eq!(
        Timeframe::OneWeek.plan(),
        FetchPlan::DailyWindows { resolution: Resolution::FifteenMinutes, days: 7 }
    );
    assert_eq!(
        Timeframe::OneMonth.plan(),
        FetchPlan::Single { resolution: Resolution::Daily, span: Span::Month }
    );
    assert_eq!(
        Timeframe::ThreeMonths.plan(),
        FetchPlan::Single { resolution: Resolution::Daily, span: Span::Quarter }
    );
    assert_eq!(
        Timeframe::SixMonths.plan(),
        FetchPlan::Single { resolution: Resolution::Daily, span: Span::HalfYear }
    );
    assert_eq!(
        Timeframe::OneYear.plan(),
        FetchPlan::Single { resolution: Resolution::Weekly, span: Span::Year }
    );
    assert_eq!(
        Timeframe::YearToDate.plan(),
        FetchPlan::Single { resolution: Resolution::Daily, span: Span::YearToDate }
    );
    assert_eq!(WEEK_DAYS, 7);
}

#[test]
fn only_the_week_is_put_together_from_windows() {
    for tf in ALL {
        let windowed = matches!(tf.plan(), FetchPlan::DailyWindows { .. });
        assert_eq!(windowed, tf == Timeframe::OneWeek);
        assert_eq!(StockClient::plan(tf), tf.plan());
    }
}

#[test]
fn provider_names() {
    assert_eq!(Resolution::FiveMinutes.as_str(), "5m");
    assert_eq!(Resolution::FifteenMinutes.as_str(), "15m");
    assert_eq!(Resolution::Daily.as_str(), "1d");
    assert_eq!(Resolution::Weekly.as_str(), "1wk");
    assert_eq!(Span::Day.as_str(), "1d");
    assert_eq!(Span::Month.as_str(), "1mo");
    assert_eq!(Span::Quarter.as_str(), "3mo");
    assert_eq!(Span::HalfYear.as_str(), "6mo");
    assert_eq!(Span::Year.as_str(), "1y");
    assert_eq!(Span::YearToDate.as_str(), "ytd");
}

#[test]
fn seven_daily_windows_end_now() {
    let now: i64 = 1_700_000_000;
    let windows = daily_windows(now, 7, Resolution::FifteenMinutes);
    assert_eq!(windows.len(), 7);
    assert_eq!(windows[0].start, now - 7 * SECONDS_PER_DAY);
    assert_eq!(windows[6].end, now);
    for (i, w) in windows.iter().enumerate() {
        assert_eq!(w.end - w.start, 86_400);
        assert_eq!(w.resolution, Resolution::FifteenMinutes);
        if i > 0 {
            assert_eq!(windows[i - 1].end, w.start);
        }
    }
    assert_eq!(
        windows[3],
        WindowRequest {
            start: now - 4 * 86_400,
            end: now - 3 * 86_400,
            resolution: Resolution::FifteenMinutes
        }
    );
}

#[test]
fn no_windows_for_no_days() {
    assert!(daily_windows(0, 0, Resolution::Daily).is_empty());
}

#[test]
fn windows_of_a_plan() {
    let week = StockClient::windows(Timeframe::OneWeek.plan(), 1_000_000);
    assert_eq!(week.len(), 7);
    assert_eq!(week[6].end, 1_000_000);
    assert_eq!(week[0].start, 1_000_000 - 604_800);
    assert!(StockClient::windows(Timeframe::OneMonth.plan(), 1_000_000).is_empty());
    assert!(StockClient::windows(Timeframe::OneWeek.plan(), i64::MIN + 10).is_empty());
}
