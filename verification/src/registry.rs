//! The widget registry: the host's list of widgets, each with its lock, its
//! place on the screen and its quote cache.

use vstd::prelude::*;
use crate::cache::{CacheView, FetchRequest, QuoteCache};
use crate::ipc::{chart_views, ChartData, ChartView};
use crate::series::QuoteSeries;
use crate::text::{owned, str_eq};
use crate::timeframe::Timeframe;

verus! {

/// Where a widget stands in its life.
#[derive(Clone, Copy, Debug, PartialEq, Eq, Structural)]
pub enum WidgetState {
    /// Created on request, no fetch has succeeded yet: the widget is not
    /// shown to the settings process and not persisted.
    Pending,
    /// A fetch has succeeded, now or before the widget was persisted.
    Active,
}

/// The place and size of a widget's window.
#[derive(Clone, Copy, Debug, PartialEq, Eq, Structural)]
pub struct Geometry {
    pub x: i32,
    pub y: i32,
    pub width: u32,
    pub height: u32,
}

/// One tracked instrument.
#[derive(Debug)]
pub struct Widget {
    id: String,
    symbol: String,
    locked: bool,
    state: WidgetState,
    geometry: Option<Geometry>,
    cache: QuoteCache,
}

/// What a widget holds.
pub struct WidgetView {
    pub id: Seq<char>,
    pub symbol: Seq<char>,
    pub locked: bool,
    pub state: WidgetState,
    pub geometry: Option<Geometry>,
    pub cache: CacheView,
}

impl WidgetView {
    /// A widget as it is created on an add request: locked, pending, showing
    /// one month.
    pub open spec fn pending(id: Seq<char>, symbol: Seq<char>) -> WidgetView {
        WidgetView {
            id,
            symbol,
            locked: true,
            state: WidgetState::Pending,
            geometry: None,
            cache: CacheView::initial(symbol, Timeframe::OneMonth),
        }
    }

    /// A widget as it is rebuilt from the stored settings: active, with
    /// nothing fetched yet in this run.
    pub open spec fn restored(
        id: Seq<char>,
        symbol: Seq<char>,
        timeframe: Timeframe,
        locked: bool,
        geometry: Option<Geometry>,
    ) -> WidgetView {
        WidgetView {
            id,
            symbol,
            locked,
            state: WidgetState::Active,
            geometry,
            cache: CacheView::initial(symbol, timeframe),
        }
    }

    /// True once at least one fetch for the widget has succeeded.
    pub open spec fn has_data(self) -> bool {
        self.cache.has_data()
    }

    /// The timeframe the user picked last: the pending one while a change is
    /// pending, the one on display otherwise.
    pub open spec fn timeframe(self) -> Timeframe {
        match self.cache.pending {
            Some(p) => p.timeframe,
            None => self.cache.active,
        }
    }

    /// The widget as the settings process sees it.
    pub open spec fn chart(self) -> ChartView {
        ChartView {
            id: self.id,
            symbol: self.symbol,
            timeframe: self.timeframe().code(),
            locked: self.locked,
        }
    }

    /// The fetch that a tick at `now` starts for the widget: the pending
    /// timeframe once it has been stable for the quiet period; else, when the
    /// scheduled refresh is due, the timeframe on display unless its series
    /// is cached and fresh.
    pub open spec fn tick_fetch(self, now: u64, refresh_due: bool) -> Option<Timeframe> {
        if self.cache.tick_due(now) {
            self.cache.tick_target(now)
        } else if refresh_due {
            self.cache.refresh_target(now)
        } else {
            None
        }
    }

    /// The widget after a tick at `now`.
    pub open spec fn after_tick(self, now: u64) -> WidgetView {
        WidgetView { cache: self.cache.after_tick(now), ..self }
    }
}

impl View for Widget {
    type V = WidgetView;

    closed spec fn view(&self) -> WidgetView {
        WidgetView {
            id: self.id@,
            symbol: self.symbol@,
            locked: self.locked,
            state: self.state,
            geometry: self.geometry,
            cache: self.cache@,
        }
    }
}

impl Widget {
    /// The widget has a symbol, its cache is in order and belongs to that
    /// symbol, and a widget with data is an active one.
    pub closed spec fn wf(&self) -> bool {
        &&& self.cache.wf()
        &&& self.symbol@.len() > 0
        &&& self.cache@.symbol == self.symbol@
        &&& self.cache@.has_data() ==> self.state == WidgetState::Active
    }

    /// What holds of every well-formed widget.
    pub proof fn lemma_wf(&self)
        requires
            self.wf(),
        ensures
            self@.symbol.len() > 0,
            self@.cache.symbol == self@.symbol,
            self@.has_data() ==> self@.state == WidgetState::Active,
    {
    }

    /// The id of the widget.
    pub fn id(&self) -> (r: &str)
        ensures
            r@ == self@.id,
    {
        self.id.as_str()
    }

    /// The ticker of the instrument.
    pub fn symbol(&self) -> (r: &str)
        ensures
            r@ == self@.symbol,
    {
        self.symbol.as_str()
    }

    /// Whether the window of the widget refuses to be moved and resized.
    pub fn locked(&self) -> (r: bool)
        ensures
            r == self@.locked,
    {
        self.locked
    }

    /// Where the widget stands in its life.
    pub fn state(&self) -> (r: WidgetState)
        ensures
            r == self@.state,
    {
        self.state
    }

    /// Where the window of the widget stood when it last reported.
    pub fn geometry(&self) -> (r: Option<Geometry>)
        ensures
            r == self@.geometry,
    {
        self.geometry
    }

    /// True once at least one fetch for the widget has succeeded.
    pub fn has_data(&self) -> (r: bool)
        requires
            self.wf(),
        ensures
            r == self@.has_data(),
    {
        self.cache.has_data()
    }

    /// The timeframe the user picked last.
    pub fn timeframe(&self) -> (r: Timeframe)
        ensures
            r == self@.timeframe(),
    {
        match self.cache.pending() {
            Some(p) => p.timeframe,
            None => self.cache.active_timeframe(),
        }
    }

    /// The timeframe whose series is on display.
    pub fn timeframe_on_display(&self) -> (r: Timeframe)
        ensures
            r == self@.cache.active,
    {
        self.cache.active_timeframe()
    }

    /// The series on display, if there is one.
    pub fn current_series(&self) -> (r: Option<&QuoteSeries>)
        requires
            self.wf(),
        ensures
            match r {
                Some(series) => self@.cache.shown() == Some(series@) && series@.wf(),
                None => self@.cache.shown() is None,
            },
    {
        self.cache.current_series()
    }

    /// The widget as the settings process sees it.
    pub fn chart(&self) -> (r: ChartData)
        ensures
            r@ == self@.chart(),
    {
        ChartData {
            id: self.id.clone(),
            symbol: self.symbol.clone(),
            timeframe: owned(self.timeframe().as_str()),
            locked: self.locked,
        }
    }
}

/// Some widget of the list has the id.
pub open spec fn has_id(widgets: Seq<WidgetView>, id: Seq<char>) -> bool {
    exists|i: int| 0 <= i < widgets.len() && widgets[i].id == id
}

/// No two widgets of the list share an id.
pub open spec fn distinct_ids(widgets: Seq<WidgetView>) -> bool {
    forall|i: int, j: int| 0 <= i < j < widgets.len() ==> widgets[i].id != widgets[j].id
}

/// The place of the widget with the id.
pub open spec fn place_of(widgets: Seq<WidgetView>, id: Seq<char>) -> int {
    choose|i: int| 0 <= i < widgets.len() && widgets[i].id == id
}

/// The widget list as the settings process sees it: the active widgets, in
/// the order of the registry.
pub open spec fn charts_of(widgets: Seq<WidgetView>) -> Seq<ChartView>
    decreases widgets.len(),
{
    if widgets.len() == 0 {
        Seq::empty()
    } else if widgets.last().state == WidgetState::Active {
        charts_of(widgets.drop_last()).push(widgets.last().chart())
    } else {
        charts_of(widgets.drop_last())
    }
}

/// Among distinct ids, the place of an id is where the id stands.
pub proof fn lemma_place_of(widgets: Seq<WidgetView>, i: int)
    requires
        distinct_ids(widgets),
        0 <= i < widgets.len(),
    ensures
        has_id(widgets, widgets[i].id),
        place_of(widgets, widgets[i].id) == i,
{
    let p = place_of(widgets, widgets[i].id);
    if p < i {
        assert(widgets[p].id != widgets[i].id);
    } else if i < p {
        assert(widgets[i].id != widgets[p].id);
    }
}

/// `chart` is the chart of an active widget of the list.
pub open spec fn is_active_chart(widgets: Seq<WidgetView>, chart: ChartView) -> bool {
    exists|i: int|
        0 <= i < widgets.len() && widgets[i].state == WidgetState::Active
            && #[trigger] widgets[i].chart() == chart
}

/// A snapshot holds the active widgets and nothing else: every chart in it is
/// the chart of an active widget, and every active widget has its chart in
/// it. A pending widget is therefore in no snapshot.
pub proof fn lemma_snapshot_holds_active_only(widgets: Seq<WidgetView>)
    ensures
        forall|k: int|
            0 <= k < charts_of(widgets).len() ==> is_active_chart(
                widgets,
                #[trigger] charts_of(widgets)[k],
            ),
        forall|i: int|
            0 <= i < widgets.len() && widgets[i].state == WidgetState::Active ==> charts_of(
                widgets,
            ).contains((#[trigger] widgets[i]).chart()),
        charts_of(widgets).len() <= widgets.len(),
    decreases widgets.len(),
{
    if widgets.len() > 0 {
        let head = widgets.drop_last();
        lemma_snapshot_holds_active_only(head);
        let all = charts_of(widgets);
        let last = widgets.len() - 1;
        assert forall|k: int| 0 <= k < all.len() implies is_active_chart(
            widgets,
            #[trigger] all[k],
        ) by {
            if k < charts_of(head).len() {
                assert(charts_of(head)[k] == all[k]);
                assert(is_active_chart(head, charts_of(head)[k]));
                let i = choose|i: int|
                    0 <= i < head.len() && head[i].state == WidgetState::Active
                        && #[trigger] head[i].chart() == all[k];
                assert(widgets[i] == head[i]);
                assert(widgets[i].chart() == all[k]);
            } else {
                assert(widgets[last].chart() == all[k]);
            }
        }
        assert forall|i: int|
            0 <= i < widgets.len() && widgets[i].state == WidgetState::Active implies all.contains(
            (#[trigger] widgets[i]).chart(),
        ) by {
            if i < head.len() {
                assert(widgets[i] == head[i]);
                assert(charts_of(head).contains(head[i].chart()));
                let k = choose|k: int|
                    0 <= k < charts_of(head).len() && charts_of(head)[k] == head[i].chart();
                assert(all[k] == widgets[i].chart());
            } else {
                assert(all[all.len() - 1] == widgets[i].chart());
            }
        }
    }
}

/// The host's list of widgets.
#[derive(Debug)]
pub struct WidgetRegistry {
    widgets: Vec<Widget>,
}

impl View for WidgetRegistry {
    type V = Seq<WidgetView>;

    closed spec fn view(&self) -> Seq<WidgetView> {
        Seq::new(self.widgets@.len(), |i: int| self.widgets@[i]@)
    }
}

impl WidgetRegistry {
    /// Every widget is well-formed and no id occurs twice.
    pub closed spec fn wf(&self) -> bool {
        &&& forall|i: int| 0 <= i < self.widgets@.len() ==> (#[trigger] self.widgets@[i]).wf()
        &&& distinct_ids(self@)
    }

    /// What holds of the widgets of every well-formed registry.
    pub proof fn lemma_wf(&self)
        requires
            self.wf(),
        ensures
            distinct_ids(self@),
            forall|i: int|
                0 <= i < self@.len() ==> (#[trigger] self@[i]).symbol.len() > 0 && self@[i].cache.symbol
                    == self@[i].symbol && (self@[i].has_data() ==> self@[i].state
                    == WidgetState::Active),
    {
        assert forall|i: int| 0 <= i < self@.len() implies (#[trigger] self@[i]).symbol.len() > 0
            && self@[i].cache.symbol == self@[i].symbol && (self@[i].has_data() ==> self@[i].state
            == WidgetState::Active) by {
            assert(self.widgets@[i].wf());
        }
    }

    /// A registry without widgets.
    pub fn new() -> (r: WidgetRegistry)
        ensures
            r.wf(),
            r@ == Seq::<WidgetView>::empty(),
    {
        let r = WidgetRegistry { widgets: Vec::new() };
        assert(r@ =~= Seq::<WidgetView>::empty());
        r
    }

    /// The number of widgets, pending ones included.
    pub fn len(&self) -> (r: usize)
        ensures
            r == self@.len(),
    {
        self.widgets.len()
    }

    /// The widget at a place.
    pub fn get(&self, i: usize) -> (r: &Widget)
        requires
            self.wf(),
            i < self@.len(),
        ensures
            r.wf(),
            r@ == self@[i as int],
    {
        &self.widgets[i]
    }

    /// The place of the widget with the id; `None` when there is none.
    pub fn find(&self, id: &str) -> (r: Option<usize>)
        requires
            self.wf(),
        ensures
            match r {
                Some(i) => i < self@.len() && self@[i as int].id == id@ && place_of(self@, id@)
                    == i && has_id(self@, id@),
                None => !has_id(self@, id@),
            },
    {
        let mut i: usize = 0;
        while i < self.widgets.len()
            invariant
                self.wf(),
                i <= self.widgets@.len(),
                forall|k: int| 0 <= k < i ==> self@[k].id != id@,
            decreases self.widgets@.len() - i,
        {
            if str_eq(self.widgets[i].id.as_str(), id) {
                proof {
                    assert(self@[i as int].id == id@);
                    lemma_place_of(self@, i as int);
                }
                return Some(i);
            }
            i += 1;
        }
        None
    }

    /// Adds a widget at the end, if it has a symbol and its id is not taken.
    fn insert(&mut self, widget: Widget) -> (added: bool)
        requires
            old(self).wf(),
            widget.wf(),
        ensures
            final(self).wf(),
            added == !has_id(old(self)@, widget@.id),
            final(self)@ == if added {
                old(self)@.push(widget@)
            } else {
                old(self)@
            },
    {
        if self.find(widget.id.as_str()).is_some() {
            return false;
        }
        self.widgets.push(widget);
        proof {
            assert(self@ =~= old(self)@.push(widget@));
            assert forall|i: int, j: int| 0 <= i < j < self@.len() implies self@[i].id
                != self@[j].id by {
                if j == self@.len() - 1 {
                    assert(old(self)@[i].id != widget@.id);
                } else {
                    assert(old(self)@[i].id != old(self)@[j].id);
                }
            }
        }
        true
    }

    /// Adds a pending widget for `symbol` under `id`. Nothing is added for an
    /// empty symbol or an id that a widget already has.
    pub fn insert_pending(&mut self, id: String, symbol: String) -> (added: bool)
        requires
            old(self).wf(),
        ensures
            final(self).wf(),
            added == (symbol@.len() > 0 && !has_id(old(self)@, id@)),
            final(self)@ == if added {
                old(self)@.push(WidgetView::pending(id@, symbol@))
            } else {
                old(self)@
            },
    {
        if symbol.as_str().is_empty() {
            return false;
        }
        let cache = QuoteCache::new(symbol.clone(), Timeframe::OneMonth);
        assert(!cache@.has_data());
        let widget = Widget {
            id,
            symbol,
            locked: true,
            state: WidgetState::Pending,
            geometry: None,
            cache,
        };
        self.insert(widget)
    }

    /// Adds a widget from the stored settings: active, with nothing fetched
    /// yet. Nothing is added for an empty symbol or an id that a widget
    /// already has.
    pub fn insert_restored(
        &mut self,
        id: String,
        symbol: String,
        timeframe: Timeframe,
        locked: bool,
        geometry: Option<Geometry>,
    ) -> (added: bool)
        requires
            old(self).wf(),
        ensures
            final(self).wf(),
            added == (symbol@.len() > 0 && !has_id(old(self)@, id@)),
            final(self)@ == if added {
                old(self)@.push(WidgetView::restored(id@, symbol@, timeframe, locked, geometry))
            } else {
                old(self)@
            },
    {
        if symbol.as_str().is_empty() {
            return false;
        }
        let cache = QuoteCache::new(symbol.clone(), timeframe);
        let widget = Widget { id, symbol, locked, state: WidgetState::Active, geometry, cache };
        self.insert(widget)
    }

    /// Takes the widget at a place out of the registry.
    pub fn remove_at(&mut self, i: usize) -> (removed: Widget)
        requires
            old(self).wf(),
            i < old(self)@.len(),
        ensures
            final(self).wf(),
            final(self)@ == old(self)@.remove(i as int),
            removed@ == old(self)@[i as int],
            !has_id(final(self)@, removed@.id),
    {
        let removed = self.widgets.remove(i);
        proof {
            assert(self@ =~= old(self)@.remove(i as int));
            assert forall|a: int, b: int| 0 <= a < b < self@.len() implies self@[a].id
                != self@[b].id by {
                let oa = if a < i { a } else { a + 1 };
                let ob = if b < i { b } else { b + 1 };
                assert(old(self)@[oa].id != old(self)@[ob].id);
            }
            if has_id(self@, removed@.id) {
                let k = choose|k: int| 0 <= k < self@.len() && self@[k].id == removed@.id;
                let ok = if k < i { k } else { k + 1 };
                if ok < i {
                    assert(old(self)@[ok].id != old(self)@[i as int].id);
                } else {
                    assert(old(self)@[i as int].id != old(self)@[ok].id);
                }
            }
        }
        removed
    }

    /// Locks or unlocks the widget at a place.
    pub fn lock_at(&mut self, i: usize, locked: bool)
        requires
            old(self).wf(),
            i < old(self)@.len(),
        ensures
            final(self).wf(),
            final(self)@ == old(self)@.update(
                i as int,
                WidgetView { locked, ..old(self)@[i as int] },
            ),
    {
        self.widgets[i].locked = locked;
        proof {
            self.lemma_updated(*old(self), i as int);
        }
    }

    /// Notes where the window of the widget at a place stands.
    pub fn place_at(&mut self, i: usize, geometry: Geometry)
        requires
            old(self).wf(),
            i < old(self)@.len(),
        ensures
            final(self).wf(),
            final(self)@ == old(self)@.update(
                i as int,
                WidgetView { geometry: Some(geometry), ..old(self)@[i as int] },
            ),
    {
        self.widgets[i].geometry = Some(geometry);
        proof {
            self.lemma_updated(*old(self), i as int);
        }
    }

    /// Hands the user's choice of a timeframe to the cache of the widget at a
    /// place; `true` when the choice was served from the cache.
    pub fn set_timeframe_at(&mut self, i: usize, timeframe: Timeframe, now: u64) -> (hit: bool)
        requires
            old(self).wf(),
            i < old(self)@.len(),
        ensures
            final(self).wf(),
            hit == old(self)@[i as int].cache.is_fresh(timeframe, now),
            final(self)@ == old(self)@.update(
                i as int,
                WidgetView {
                    cache: old(self)@[i as int].cache.after_set_timeframe(timeframe, now),
                    ..old(self)@[i as int]
                },
            ),
    {
        let hit = self.widgets[i].cache.set_timeframe(timeframe, now);
        proof {
            assert(self.widgets@[i as int].cache@.entries == old(self).widgets@[i as int].cache@.entries);
            assert(self.widgets@[i as int].cache@.has_data() == old(
                self,
            ).widgets@[i as int].cache@.has_data());
            self.lemma_updated(*old(self), i as int);
        }
        hit
    }

    /// Stores the series of a completed fetch in the cache of the widget at a
    /// place, and makes a pending widget an active one.
    pub fn complete_at(&mut self, i: usize, timeframe: Timeframe, series: QuoteSeries)
        requires
            old(self).wf(),
            i < old(self)@.len(),
        ensures
            final(self).wf(),
            final(self)@ == old(self)@.update(
                i as int,
                WidgetView {
                    state: WidgetState::Active,
                    cache: old(self)@[i as int].cache.after_complete(timeframe, series@),
                    ..old(self)@[i as int]
                },
            ),
    {
        self.widgets[i].cache.on_fetch_complete(timeframe, series);
        self.widgets[i].state = WidgetState::Active;
        proof {
            self.lemma_updated(*old(self), i as int);
        }
    }

    /// Gives the widget at a place its tick, and with `refresh_due` its
    /// scheduled refresh; returns the fetch to start for it, if any.
    pub fn tick_at(&mut self, i: usize, now: u64, refresh_due: bool) -> (r: Option<FetchRequest>)
        requires
            old(self).wf(),
            i < old(self)@.len(),
        ensures
            final(self).wf(),
            final(self)@ == old(self)@.update(i as int, old(self)@[i as int].after_tick(now)),
            match r {
                Some(req) => old(self)@[i as int].tick_fetch(now, refresh_due) == Some(
                    req.timeframe,
                ) && req.symbol@ == old(self)@[i as int].symbol,
                None => old(self)@[i as int].tick_fetch(now, refresh_due) is None,
            },
    {
        let fired = self.widgets[i].cache.tick(now);
        proof {
            assert(self.widgets@[i as int].cache@.entries == old(self).widgets@[i as int].cache@.entries);
            assert(self.widgets@[i as int].cache@.has_data() == old(
                self,
            ).widgets@[i as int].cache@.has_data());
            self.lemma_updated(*old(self), i as int);
        }
        match fired {
            Some(req) => Some(req),
            None => {
                if refresh_due {
                    self.widgets[i].cache.refresh(now)
                } else {
                    None
                }
            },
        }
    }

    /// The widget list as the settings process sees it.
    pub fn snapshot(&self) -> (r: Vec<ChartData>)
        requires
            self.wf(),
        ensures
            chart_views(r@) == charts_of(self@),
    {
        let mut out: Vec<ChartData> = Vec::new();
        let mut i: usize = 0;
        assert(self@.take(0) =~= Seq::<WidgetView>::empty());
        assert(chart_views(out@) =~= charts_of(self@.take(0)));
        while i < self.widgets.len()
            invariant
                i <= self.widgets@.len(),
                self@.len() == self.widgets@.len(),
                chart_views(out@) == charts_of(self@.take(i as int)),
            decreases self.widgets@.len() - i,
        {
            let ghost before = out@;
            proof {
                let next = self@.take(i + 1);
                assert(next.drop_last() =~= self@.take(i as int));
                assert(next.last() == self@[i as int]);
            }
            if self.widgets[i].state == WidgetState::Active {
                let chart = self.widgets[i].chart();
                out.push(chart);
                assert(chart_views(out@) =~= chart_views(before).push(chart@));
            }
            i += 1;
        }
        assert(self@.take(self@.len() as int) =~= self@);
        out
    }

    /// After one widget changed without changing its id, the registry is what
    /// it was with that widget replaced.
    proof fn lemma_updated(&self, before: WidgetRegistry, i: int)
        requires
            before.wf(),
            0 <= i < before.widgets@.len(),
            self.widgets@.len() == before.widgets@.len(),
            forall|k: int|
                0 <= k < before.widgets@.len() && k != i ==> self.widgets@[k]
                    == before.widgets@[k],
            self.widgets@[i].wf(),
            self.widgets@[i]@.id == before.widgets@[i]@.id,
        ensures
            self.wf(),
            self@ == before@.update(i, self.widgets@[i]@),
    {
        assert(self@ =~= before@.update(i, self.widgets@[i]@));
        assert forall|a: int, b: int| 0 <= a < b < self@.len() implies self@[a].id
            != self@[b].id by {
            assert(before@[a].id != before@[b].id);
        }
    }
}

} // verus!
