//! The quote cache of one widget: which series to show, when to fetch, and
//! the debouncing of rapid timeframe changes.

use vstd::prelude::*;
use crate::series::{QuoteSeries, SeriesView};
use crate::timeframe::Timeframe;

verus! {

/// How long a cached series counts as fresh, in milliseconds (30 minutes).
pub const FRESHNESS_MS: u64 = 1_800_000;

/// How long a requested timeframe must stay unchanged before it is fetched,
/// in milliseconds.
pub const QUIET_MS: u64 = 500;

/// A timeframe the user picked that is not fetched yet.
#[derive(Clone, Copy, Debug, PartialEq, Eq, Structural)]
pub struct PendingChange {
    pub timeframe: Timeframe,
    /// When it was picked, in milliseconds of the host's clock.
    pub requested_at: u64,
}

/// A fetch that the owner of the cache is asked to start.
#[derive(Debug)]
pub struct FetchRequest {
    pub symbol: String,
    pub timeframe: Timeframe,
}

/// What becomes of a widget whose fetch failed.
#[derive(Clone, Copy, Debug, PartialEq, Eq, Structural)]
pub enum FailureOutcome {
    /// The widget never had data: it is discarded.
    Discard,
    /// The widget keeps its last good series; the failure is only reported.
    Keep,
}

/// The time that has passed since `then`; none if the clock went back.
pub open spec fn age(now: u64, then: u64) -> int {
    if now >= then {
        now - then
    } else {
        0
    }
}

/// The state of a cache.
pub struct CacheView {
    pub symbol: Seq<char>,
    /// The timeframe on display.
    pub active: Timeframe,
    /// The last series fetched for each timeframe.
    pub entries: Map<Timeframe, SeriesView>,
    pub pending: Option<PendingChange>,
}

impl CacheView {
    /// The state of a cache that has fetched nothing yet.
    pub open spec fn initial(symbol: Seq<char>, timeframe: Timeframe) -> CacheView {
        CacheView { symbol, active: timeframe, entries: Map::empty(), pending: None }
    }

    /// A series for `timeframe` is cached and not older than the freshness
    /// window.
    pub open spec fn is_fresh(self, timeframe: Timeframe, now: u64) -> bool {
        self.entries.contains_key(timeframe) && age(now, self.entries[timeframe].fetched_at)
            <= FRESHNESS_MS
    }

    /// At least one fetch has completed successfully.
    pub open spec fn has_data(self) -> bool {
        exists|tf: Timeframe| self.entries.contains_key(tf)
    }

    /// The series on display, if there is one.
    pub open spec fn shown(self) -> Option<SeriesView> {
        if self.entries.contains_key(self.active) {
            Some(self.entries[self.active])
        } else {
            None
        }
    }

    /// The timeframe that a refresh at `now` fetches, if any.
    pub open spec fn refresh_target(self, now: u64) -> Option<Timeframe> {
        if self.is_fresh(self.active, now) {
            None
        } else {
            Some(self.active)
        }
    }

    /// The state after the user picked `timeframe` at `now`.
    pub open spec fn after_set_timeframe(self, timeframe: Timeframe, now: u64) -> CacheView {
        if self.is_fresh(timeframe, now) {
            CacheView { active: timeframe, pending: None, ..self }
        } else {
            CacheView {
                pending: Some(PendingChange { timeframe, requested_at: now }),
                ..self
            }
        }
    }

    /// A pending change has been stable for the quiet period at `now`.
    pub open spec fn tick_due(self, now: u64) -> bool {
        self.pending matches Some(p) && age(now, p.requested_at) >= QUIET_MS
    }

    /// The state after a tick at `now`.
    pub open spec fn after_tick(self, now: u64) -> CacheView {
        if self.tick_due(now) {
            CacheView { active: self.pending->0.timeframe, pending: None, ..self }
        } else {
            self
        }
    }

    /// The timeframe that a tick at `now` fetches, if any.
    pub open spec fn tick_target(self, now: u64) -> Option<Timeframe> {
        if self.tick_due(now) {
            Some(self.pending->0.timeframe)
        } else {
            None
        }
    }

    /// The state after a fetch for `timeframe` completed with `series`.
    pub open spec fn after_complete(self, timeframe: Timeframe, series: SeriesView) -> CacheView {
        CacheView { entries: self.entries.insert(timeframe, series), ..self }
    }

    /// What a failed fetch means for the widget.
    pub open spec fn failure_outcome(self) -> FailureOutcome {
        if self.has_data() {
            FailureOutcome::Keep
        } else {
            FailureOutcome::Discard
        }
    }
}

/// The place of a timeframe among the slots of a cache.
pub open spec fn slot_of(timeframe: Timeframe) -> int {
    match timeframe {
        Timeframe::OneDay => 0,
        Timeframe::OneWeek => 1,
        Timeframe::OneMonth => 2,
        Timeframe::ThreeMonths => 3,
        Timeframe::SixMonths => 4,
        Timeframe::OneYear => 5,
        Timeframe::YearToDate => 6,
    }
}

fn slot(timeframe: Timeframe) -> (r: usize)
    ensures
        r == slot_of(timeframe),
{
    match timeframe {
        Timeframe::OneDay => 0,
        Timeframe::OneWeek => 1,
        Timeframe::OneMonth => 2,
        Timeframe::ThreeMonths => 3,
        Timeframe::SixMonths => 4,
        Timeframe::OneYear => 5,
        Timeframe::YearToDate => 6,
    }
}

/// The quote cache and debouncer of one widget.
#[derive(Debug)]
pub struct QuoteCache {
    symbol: String,
    active: Timeframe,
    /// One slot per timeframe, in the order of `slot_of`.
    slots: Vec<Option<QuoteSeries>>,
    pending: Option<PendingChange>,
}

impl View for QuoteCache {
    type V = CacheView;

    closed spec fn view(&self) -> CacheView {
        CacheView {
            symbol: self.symbol@,
            active: self.active,
            entries: Map::new(
                |tf: Timeframe| self.slots@[slot_of(tf)] is Some,
                |tf: Timeframe| self.slots@[slot_of(tf)]->0@,
            ),
            pending: self.pending,
        }
    }
}

impl QuoteCache {
    /// The cache is laid out as its operations expect, and every cached
    /// series is a well-formed one.
    pub closed spec fn wf(&self) -> bool {
        &&& self.slots@.len() == 7
        &&& forall|tf: Timeframe| #[trigger]
            self@.entries.contains_key(tf) ==> self@.entries[tf].wf()
    }

    /// A cache for `symbol` that shows `timeframe` and has fetched nothing.
    pub fn new(symbol: String, timeframe: Timeframe) -> (r: QuoteCache)
        ensures
            r.wf(),
            r@ == CacheView::initial(symbol@, timeframe),
    {
        let mut slots: Vec<Option<QuoteSeries>> = Vec::new();
        let mut i: usize = 0;
        while i < 7
            invariant
                i <= 7,
                slots@.len() == i,
                forall|k: int| 0 <= k < i ==> slots@[k] is None,
            decreases 7 - i,
        {
            slots.push(None);
            i += 1;
        }
        let r = QuoteCache { symbol, active: timeframe, slots, pending: None };
        assert(r@.entries =~= Map::empty());
        r
    }

    /// Decides whether the series on display must be fetched again: it must
    /// when none is cached for the active timeframe or the cached one is
    /// older than the freshness window.
    pub fn refresh(&self, now: u64) -> (r: Option<FetchRequest>)
        requires
            self.wf(),
        ensures
            match r {
                Some(req) => self@.refresh_target(now) == Some(req.timeframe) && req.symbol@
                    == self@.symbol,
                None => self@.refresh_target(now) is None,
            },
    {
        if self.fresh(self.active, now) {
            None
        } else {
            Some(FetchRequest { symbol: self.symbol.clone(), timeframe: self.active })
        }
    }

    /// Whether a series for `timeframe` is cached and still fresh at `now`.
    pub fn fresh(&self, timeframe: Timeframe, now: u64) -> (r: bool)
        requires
            self.wf(),
        ensures
            r == self@.is_fresh(timeframe, now),
    {
        match &self.slots[slot(timeframe)] {
            Some(series) => {
                let at = series.fetched_at();
                if now >= at {
                    now - at <= FRESHNESS_MS
                } else {
                    true
                }
            },
            None => false,
        }
    }

    /// Takes the user's choice of a timeframe. With a fresh series in the
    /// cache the choice applies at once and `true` is returned; otherwise it
    /// is only noted, to be fetched once it has stayed unchanged for the
    /// quiet period. Nothing is fetched here.
    pub fn set_timeframe(&mut self, timeframe: Timeframe, now: u64) -> (hit: bool)
        requires
            old(self).wf(),
        ensures
            final(self).wf(),
            hit == old(self)@.is_fresh(timeframe, now),
            final(self)@ == old(self)@.after_set_timeframe(timeframe, now),
    {
        if self.fresh(timeframe, now) {
            self.active = timeframe;
            self.pending = None;
            assert(self@.entries =~= old(self)@.entries);
            true
        } else {
            self.pending = Some(PendingChange { timeframe, requested_at: now });
            assert(self@.entries =~= old(self)@.entries);
            false
        }
    }

    /// Called on a steady cadence. When the pending change has been stable
    /// for the quiet period it becomes the active timeframe, and the fetch
    /// for it is returned.
    pub fn tick(&mut self, now: u64) -> (r: Option<FetchRequest>)
        requires
            old(self).wf(),
        ensures
            final(self).wf(),
            final(self)@ == old(self)@.after_tick(now),
            match r {
                Some(req) => old(self)@.tick_target(now) == Some(req.timeframe) && req.symbol@
                    == old(self)@.symbol,
                None => old(self)@.tick_target(now) is None,
            },
    {
        match self.pending {
            Some(p) => {
                if now >= p.requested_at && now - p.requested_at >= QUIET_MS {
                    self.active = p.timeframe;
                    self.pending = None;
                    assert(self@.entries =~= old(self)@.entries);
                    Some(FetchRequest { symbol: self.symbol.clone(), timeframe: p.timeframe })
                } else {
                    None
                }
            },
            None => None,
        }
    }

    /// Stores the series of a completed fetch under the timeframe the fetch
    /// was issued for, whatever timeframe is on display by now.
    pub fn on_fetch_complete(&mut self, timeframe: Timeframe, series: QuoteSeries)
        requires
            old(self).wf(),
        ensures
            final(self).wf(),
            final(self)@ == old(self)@.after_complete(timeframe, series@),
    {
        let _ = series.points();
        let i = slot(timeframe);
        self.slots.set(i, Some(series));
        proof {
            assert forall|tf: Timeframe| slot_of(tf) == i implies tf == timeframe by {}
            assert(self@.entries =~= old(self)@.entries.insert(timeframe, series@));
        }
    }

    /// Says what a failed fetch means: a widget that never had data is to be
    /// discarded, any other keeps its cached series. The cache is not changed.
    pub fn on_fetch_error(&self) -> (r: FailureOutcome)
        requires
            self.wf(),
        ensures
            r == self@.failure_outcome(),
    {
        if self.has_data() {
            FailureOutcome::Keep
        } else {
            FailureOutcome::Discard
        }
    }

    /// Whether at least one fetch has completed successfully.
    pub fn has_data(&self) -> (r: bool)
        requires
            self.wf(),
        ensures
            r == self@.has_data(),
    {
        let mut i: usize = 0;
        while i < 7
            invariant
                i <= 7,
                self.slots@.len() == 7,
                forall|k: int| 0 <= k < i ==> self.slots@[k] is None,
            decreases 7 - i,
        {
            if self.slots[i].is_some() {
                proof {
                    let tf = timeframe_at(i as int);
                    assert(self@.entries.contains_key(tf));
                }
                return true;
            }
            i += 1;
        }
        proof {
            assert forall|tf: Timeframe| !self@.entries.contains_key(tf) by {
                assert(0 <= slot_of(tf) < 7);
            }
        }
        false
    }

    /// The series on display: the one cached for the active timeframe.
    pub fn current_series(&self) -> (r: Option<&QuoteSeries>)
        requires
            self.wf(),
        ensures
            match r {
                Some(series) => self@.shown() == Some(series@) && series@.wf(),
                None => self@.shown() is None,
            },
    {
        let r = self.slots[slot(self.active)].as_ref();
        proof {
            if r is Some {
                assert(self@.entries.contains_key(self.active));
            }
        }
        r
    }

    /// The timeframe on display.
    pub fn active_timeframe(&self) -> (r: Timeframe)
        ensures
            r == self@.active,
    {
        self.active
    }

    /// The change of timeframe that waits for the quiet period to pass, if
    /// any.
    pub fn pending(&self) -> (r: Option<PendingChange>)
        ensures
            r == self@.pending,
    {
        self.pending
    }

    /// The symbol whose quotes the cache holds.
    pub fn symbol(&self) -> (r: &str)
        ensures
            r@ == self@.symbol,
    {
        self.symbol.as_str()
    }
}

/// The timeframe that owns a slot.
pub open spec fn timeframe_at(slot: int) -> Timeframe {
    if slot == 0 {
        Timeframe::OneDay
    } else if slot == 1 {
        Timeframe::OneWeek
    } else if slot == 2 {
        Timeframe::OneMonth
    } else if slot == 3 {
        Timeframe::ThreeMonths
    } else if slot == 4 {
        Timeframe::SixMonths
    } else if slot == 5 {
        Timeframe::OneYear
    } else {
        Timeframe::YearToDate
    }
}

} // verus!
