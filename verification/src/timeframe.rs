//! The spans a chart can show and the provider requests that fill each of
//! them.

use vstd::prelude::*;
use crate::text::str_eq;

verus! {

/// The span of history that a widget shows.
#[derive(Clone, Copy, Debug, PartialEq, Eq, Structural)]
pub enum Timeframe {
    OneDay,
    OneWeek,
    OneMonth,
    ThreeMonths,
    SixMonths,
    OneYear,
    YearToDate,
}

/// The distance between two points of a requested series.
#[derive(Clone, Copy, Debug, PartialEq, Eq, Structural)]
pub enum Resolution {
    FiveMinutes,
    FifteenMinutes,
    Daily,
    Weekly,
}

/// A span that the provider knows by name.
#[derive(Clone, Copy, Debug, PartialEq, Eq, Structural)]
pub enum Span {
    Day,
    Month,
    Quarter,
    HalfYear,
    Year,
    YearToDate,
}

/// One request for the points between two moments, in seconds since the epoch.
#[derive(Clone, Copy, Debug, PartialEq, Eq, Structural)]
pub struct WindowRequest {
    pub start: i64,
    pub end: i64,
    pub resolution: Resolution,
}

/// How the series of a timeframe is fetched.
#[derive(Clone, Copy, Debug, PartialEq, Eq, Structural)]
pub enum FetchPlan {
    /// One request for a named span.
    Single { resolution: Resolution, span: Span },
    /// One request for each of the trailing days, merged afterwards.
    DailyWindows { resolution: Resolution, days: u8 },
}

/// Seconds in a day.
pub const SECONDS_PER_DAY: i64 = 86_400;

/// The number of daily windows that make up the series of one week.
pub const WEEK_DAYS: u8 = 7;

impl Resolution {
    /// The distance in seconds.
    pub open spec fn seconds(self) -> int {
        match self {
            Resolution::FiveMinutes => 300,
            Resolution::FifteenMinutes => 900,
            Resolution::Daily => 86_400,
            Resolution::Weekly => 604_800,
        }
    }

    /// The provider's name for the resolution.
    pub open spec fn code(self) -> Seq<char> {
        match self {
            Resolution::FiveMinutes => "5m"@,
            Resolution::FifteenMinutes => "15m"@,
            Resolution::Daily => "1d"@,
            Resolution::Weekly => "1wk"@,
        }
    }

    /// The provider's name for the resolution.
    pub fn as_str(&self) -> (r: &'static str)
        ensures
            r@ == self.code(),
    {
        match self {
            Resolution::FiveMinutes => "5m",
            Resolution::FifteenMinutes => "15m",
            Resolution::Daily => "1d",
            Resolution::Weekly => "1wk",
        }
    }
}

impl Span {
    /// The provider's name for the span.
    pub open spec fn code(self) -> Seq<char> {
        match self {
            Span::Day => "1d"@,
            Span::Month => "1mo"@,
            Span::Quarter => "3mo"@,
            Span::HalfYear => "6mo"@,
            Span::Year => "1y"@,
            Span::YearToDate => "ytd"@,
        }
    }

    /// The provider's name for the span.
    pub fn as_str(&self) -> (r: &'static str)
        ensures
            r@ == self.code(),
    {
        match self {
            Span::Day => "1d",
            Span::Month => "1mo",
            Span::Quarter => "3mo",
            Span::HalfYear => "6mo",
            Span::Year => "1y",
            Span::YearToDate => "ytd",
        }
    }
}

impl Timeframe {
    /// The label of the timeframe, as the protocol and the picker write it.
    pub open spec fn code(self) -> Seq<char> {
        match self {
            Timeframe::OneDay => "1D"@,
            Timeframe::OneWeek => "1W"@,
            Timeframe::OneMonth => "1M"@,
            Timeframe::ThreeMonths => "3M"@,
            Timeframe::SixMonths => "6M"@,
            Timeframe::OneYear => "1Y"@,
            Timeframe::YearToDate => "YTD"@,
        }
    }

    /// The longest stretch of days the timeframe can cover.
    pub open spec fn days(self) -> int {
        match self {
            Timeframe::OneDay => 1,
            Timeframe::OneWeek => 7,
            Timeframe::OneMonth => 31,
            Timeframe::ThreeMonths => 92,
            Timeframe::SixMonths => 184,
            Timeframe::OneYear => 366,
            Timeframe::YearToDate => 366,
        }
    }

    /// The requests that fill the timeframe.
    pub open spec fn plan_of(self) -> FetchPlan {
        match self {
            Timeframe::OneDay => FetchPlan::Single {
                resolution: Resolution::FiveMinutes,
                span: Span::Day,
            },
            Timeframe::OneWeek => FetchPlan::DailyWindows {
                resolution: Resolution::FifteenMinutes,
                days: WEEK_DAYS,
            },
            Timeframe::OneMonth => FetchPlan::Single {
                resolution: Resolution::Daily,
                span: Span::Month,
            },
            Timeframe::ThreeMonths => FetchPlan::Single {
                resolution: Resolution::Daily,
                span: Span::Quarter,
            },
            Timeframe::SixMonths => FetchPlan::Single {
                resolution: Resolution::Daily,
                span: Span::HalfYear,
            },
            Timeframe::OneYear => FetchPlan::Single {
                resolution: Resolution::Weekly,
                span: Span::Year,
            },
            Timeframe::YearToDate => FetchPlan::Single {
                resolution: Resolution::Daily,
                span: Span::YearToDate,
            },
        }
    }

    /// The label of the timeframe.
    pub fn as_str(&self) -> (r: &'static str)
        ensures
            r@ == self.code(),
    {
        match self {
            Timeframe::OneDay => "1D",
            Timeframe::OneWeek => "1W",
            Timeframe::OneMonth => "1M",
            Timeframe::ThreeMonths => "3M",
            Timeframe::SixMonths => "6M",
            Timeframe::OneYear => "1Y",
            Timeframe::YearToDate => "YTD",
        }
    }

    /// Reads a label; `None` for a text that is the label of no timeframe.
    pub fn from_code(code: &str) -> (r: Option<Timeframe>)
        ensures
            r == parse_timeframe(code@),
            match r {
                Some(tf) => code@ == tf.code(),
                None => forall|tf: Timeframe| code@ != #[trigger] tf.code(),
            },
    {
        if str_eq(code, "1D") {
            Some(Timeframe::OneDay)
        } else if str_eq(code, "1W") {
            Some(Timeframe::OneWeek)
        } else if str_eq(code, "1M") {
            Some(Timeframe::OneMonth)
        } else if str_eq(code, "3M") {
            Some(Timeframe::ThreeMonths)
        } else if str_eq(code, "6M") {
            Some(Timeframe::SixMonths)
        } else if str_eq(code, "1Y") {
            Some(Timeframe::OneYear)
        } else if str_eq(code, "YTD") {
            Some(Timeframe::YearToDate)
        } else {
            None
        }
    }

    /// The requests that fill the timeframe.
    pub fn plan(&self) -> (r: FetchPlan)
        ensures
            r == self.plan_of(),
    {
        match self {
            Timeframe::OneDay => FetchPlan::Single {
                resolution: Resolution::FiveMinutes,
                span: Span::Day,
            },
            Timeframe::OneWeek => FetchPlan::DailyWindows {
                resolution: Resolution::FifteenMinutes,
                days: WEEK_DAYS,
            },
            Timeframe::OneMonth => FetchPlan::Single {
                resolution: Resolution::Daily,
                span: Span::Month,
            },
            Timeframe::ThreeMonths => FetchPlan::Single {
                resolution: Resolution::Daily,
                span: Span::Quarter,
            },
            Timeframe::SixMonths => FetchPlan::Single {
                resolution: Resolution::Daily,
                span: Span::HalfYear,
            },
            Timeframe::OneYear => FetchPlan::Single {
                resolution: Resolution::Weekly,
                span: Span::Year,
            },
            Timeframe::YearToDate => FetchPlan::Single {
                resolution: Resolution::Daily,
                span: Span::YearToDate,
            },
        }
    }
}

/// The timeframe that a label names, if it names one.
pub open spec fn parse_timeframe(code: Seq<char>) -> Option<Timeframe> {
    if code == "1D"@ {
        Some(Timeframe::OneDay)
    } else if code == "1W"@ {
        Some(Timeframe::OneWeek)
    } else if code == "1M"@ {
        Some(Timeframe::OneMonth)
    } else if code == "3M"@ {
        Some(Timeframe::ThreeMonths)
    } else if code == "6M"@ {
        Some(Timeframe::SixMonths)
    } else if code == "1Y"@ {
        Some(Timeframe::OneYear)
    } else if code == "YTD"@ {
        Some(Timeframe::YearToDate)
    } else {
        None
    }
}

/// Reading the label of a timeframe gives the timeframe back, and a label
/// that reads as a timeframe is the label of that timeframe.
pub proof fn lemma_parse_inverts_code(tf: Timeframe, code: Seq<char>)
    ensures
        parse_timeframe(tf.code()) == Some(tf),
        parse_timeframe(code) == Some(tf) ==> code == tf.code(),
{
    lemma_codes_are_distinct(tf, Timeframe::OneDay);
    lemma_codes_are_distinct(tf, Timeframe::OneWeek);
    lemma_codes_are_distinct(tf, Timeframe::OneMonth);
    lemma_codes_are_distinct(tf, Timeframe::ThreeMonths);
    lemma_codes_are_distinct(tf, Timeframe::SixMonths);
    lemma_codes_are_distinct(tf, Timeframe::OneYear);
    lemma_codes_are_distinct(tf, Timeframe::YearToDate);
}

impl FetchPlan {
    /// The resolution of every request of the plan.
    pub open spec fn resolution(self) -> Resolution {
        match self {
            FetchPlan::Single { resolution, .. } => resolution,
            FetchPlan::DailyWindows { resolution, .. } => resolution,
        }
    }
}

/// No two timeframes share a label, so a label names at most one timeframe.
pub proof fn lemma_codes_are_distinct(a: Timeframe, b: Timeframe)
    ensures
        a.code() == b.code() <==> a == b,
{
    reveal_strlit("1D");
    reveal_strlit("1W");
    reveal_strlit("1M");
    reveal_strlit("3M");
    reveal_strlit("6M");
    reveal_strlit("1Y");
    reveal_strlit("YTD");
    if a != b && a.code() == b.code() {
        assert(a.code().len() == b.code().len());
        assert(a.code()[0] == b.code()[0]);
        assert(a.code()[1] == b.code()[1]);
    }
}

/// A timeframe that covers fewer days is never fetched at a coarser
/// resolution than one that covers more, and only the one-week series is
/// put together from daily windows.
pub proof fn lemma_shorter_spans_are_finer(a: Timeframe, b: Timeframe)
    ensures
        a.days() <= b.days() && b != Timeframe::YearToDate ==> a.plan_of().resolution().seconds()
            <= b.plan_of().resolution().seconds(),
        a.plan_of() is DailyWindows <==> a == Timeframe::OneWeek,
{
}

/// The window of one day that ends `days_back` whole days before `now`.
pub open spec fn day_window(now: i64, days_back: int, resolution: Resolution) -> WindowRequest {
    WindowRequest {
        start: (now - (days_back + 1) * SECONDS_PER_DAY) as i64,
        end: (now - days_back * SECONDS_PER_DAY) as i64,
        resolution,
    }
}

/// The daily windows that cover the `days` days before `now`, oldest first.
pub open spec fn daily_windows_of(now: i64, days: u8, resolution: Resolution) -> Seq<
    WindowRequest,
> {
    Seq::new(days as nat, |i: int| day_window(now, days - 1 - i, resolution))
}

/// Lays out the daily windows of a plan: `days` windows of one day each,
/// oldest first, the last one ending at `now`.
pub fn daily_windows(now: i64, days: u8, resolution: Resolution) -> (r: Vec<WindowRequest>)
    requires
        now - days * SECONDS_PER_DAY >= i64::MIN,
    ensures
        r@ == daily_windows_of(now, days, resolution),
{
    let mut out: Vec<WindowRequest> = Vec::new();
    let mut i: u8 = 0;
    while i < days
        invariant
            i <= days,
            now - days * SECONDS_PER_DAY >= i64::MIN,
            out@ == Seq::new(i as nat, |k: int| day_window(now, days - 1 - k, resolution)),
        decreases days - i,
    {
        let back: i64 = (days - 1 - i) as i64;
        let end: i64 = now - back * SECONDS_PER_DAY;
        let start: i64 = end - SECONDS_PER_DAY;
        out.push(WindowRequest { start, end, resolution });
        i += 1;
        assert(out@ =~= Seq::new(i as nat, |k: int| day_window(now, days - 1 - k, resolution)));
    }
    out
}

/// The daily windows follow one another without gap or overlap, each lasts
/// one day, and together they reach from `days` days before `now` to `now`.
pub proof fn lemma_daily_windows_tile(now: i64, days: u8, resolution: Resolution)
    requires
        now - days * SECONDS_PER_DAY >= i64::MIN,
        days > 0,
    ensures
        daily_windows_of(now, days, resolution).len() == days,
        daily_windows_of(now, days, resolution)[0].start == now - days * SECONDS_PER_DAY,
        daily_windows_of(now, days, resolution)[days - 1].end == now,
        forall|i: int|
            0 <= i < days ==> (#[trigger] daily_windows_of(now, days, resolution)[i]).end
                - daily_windows_of(now, days, resolution)[i].start == SECONDS_PER_DAY,
        forall|i: int|
            0 <= i < days - 1 ==> (#[trigger] daily_windows_of(now, days, resolution)[i]).end
                == daily_windows_of(now, days, resolution)[i + 1].start,
{
}

} // verus!
