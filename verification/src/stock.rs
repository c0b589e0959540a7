//! What is asked of the quote provider for a timeframe, and what is made of
//! its answers.

use vstd::prelude::*;
use crate::language::AppError;
use crate::series::{concat_chunks, is_merge_of, QuotePoint, QuoteSeries};
use crate::text::owned;
use crate::timeframe::{
    daily_windows, daily_windows_of, FetchPlan, Timeframe, WindowRequest, SECONDS_PER_DAY,
};

verus! {

/// The client of the quote provider. It holds no state: the requests go out
/// from the host process, which hands the answers back.
#[derive(Clone, Copy, Debug)]
pub struct StockClient;

/// The currency of a series whose provider named none.
pub open spec fn currency_or_default(currency: Option<Seq<char>>) -> Seq<char> {
    match currency {
        Some(c) => c,
        None => "USD"@,
    }
}

impl StockClient {
    /// The requests that fill a timeframe.
    pub fn plan(timeframe: Timeframe) -> (r: FetchPlan)
        ensures
            r == timeframe.plan_of(),
    {
        timeframe.plan()
    }

    /// The windows to ask for at `now`, in seconds since the epoch, where
    /// the plan is put together from daily windows; none for a plan of one
    /// request, and none when the windows would begin before the start of
    /// time.
    pub fn windows(plan: FetchPlan, now: i64) -> (r: Vec<WindowRequest>)
        ensures
            r@ == match plan {
                FetchPlan::DailyWindows { resolution, days } => if now - days * SECONDS_PER_DAY
                    >= i64::MIN {
                    daily_windows_of(now, days, resolution)
                } else {
                    Seq::empty()
                },
                FetchPlan::Single { .. } => Seq::empty(),
            },
    {
        match plan {
            FetchPlan::DailyWindows { resolution, days } => {
                if now >= i64::MIN + (days as i64) * SECONDS_PER_DAY {
                    daily_windows(now, days, resolution)
                } else {
                    Vec::new()
                }
            },
            FetchPlan::Single { .. } => Vec::new(),
        }
    }

    /// Makes the series of a fetch from the provider's answers, one list of
    /// points per request, in the order of the requests. The points are
    /// merged by timestamp; the currency is the provider's, or `USD` where
    /// it named none. Answers without a single point are a failure.
    pub fn complete(
        timeframe: Timeframe,
        answers: &Vec<Vec<QuotePoint>>,
        currency: Option<String>,
        fetched_at: u64,
    ) -> (r: Result<QuoteSeries, AppError>)
        ensures
            match r {
                Ok(series) => {
                    &&& concat_chunks(answers@).len() > 0
                    &&& series@.wf()
                    &&& is_merge_of(concat_chunks(answers@), series@.points)
                    &&& series@.currency == currency_or_default(
                        match currency {
                            Some(c) => Some(c@),
                            None => None,
                        },
                    )
                    &&& series@.fetched_at == fetched_at
                },
                Err(e) => concat_chunks(answers@).len() == 0 && e == crate::series::empty_error(
                    timeframe,
                ),
            },
    {
        let named = match currency {
            Some(c) => c,
            None => owned("USD"),
        };
        QuoteSeries::assemble(timeframe, answers, named, fetched_at)
    }
}

} // verus!
