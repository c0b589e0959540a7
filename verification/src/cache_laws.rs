//! What holds of a quote cache over whole runs of events.

use vstd::prelude::*;
use crate::cache::{age, CacheView, PendingChange, FRESHNESS_MS, QUIET_MS};
use crate::series::SeriesView;
use crate::timeframe::Timeframe;

verus! {

/// Something that happens to a cache.
pub enum CacheEvent {
    /// The refresh timer fired.
    Refresh { now: u64 },
    /// The user picked a timeframe.
    SetTimeframe { timeframe: Timeframe, now: u64 },
    /// The steady tick of the owning process.
    Tick { now: u64 },
    /// A fetch completed with a series.
    Completed { timeframe: Timeframe, series: SeriesView },
    /// A fetch failed.
    Failed { timeframe: Timeframe },
}

impl CacheEvent {
    /// The clock reading that the event carries; zero for one without.
    pub open spec fn time(self) -> u64 {
        match self {
            CacheEvent::Refresh { now } => now,
            CacheEvent::SetTimeframe { now, .. } => now,
            CacheEvent::Tick { now } => now,
            _ => 0,
        }
    }
}

/// The state of a cache after one event.
pub open spec fn step(v: CacheView, e: CacheEvent) -> CacheView {
    match e {
        CacheEvent::Refresh { .. } => v,
        CacheEvent::SetTimeframe { timeframe, now } => v.after_set_timeframe(timeframe, now),
        CacheEvent::Tick { now } => v.after_tick(now),
        CacheEvent::Completed { timeframe, series } => v.after_complete(timeframe, series),
        CacheEvent::Failed { .. } => v,
    }
}

/// The fetch that one event makes the cache ask for, if any.
pub open spec fn fetch_of(v: CacheView, e: CacheEvent) -> Option<Timeframe> {
    match e {
        CacheEvent::Refresh { now } => v.refresh_target(now),
        CacheEvent::Tick { now } => v.tick_target(now),
        _ => None,
    }
}

/// The state of a cache after a run of events.
pub open spec fn run(v: CacheView, events: Seq<CacheEvent>) -> CacheView
    decreases events.len(),
{
    if events.len() == 0 {
        v
    } else {
        step(run(v, events.drop_last()), events.last())
    }
}

/// The fetches that a run of events makes the cache ask for, in order.
pub open spec fn fetches(v: CacheView, events: Seq<CacheEvent>) -> Seq<Timeframe>
    decreases events.len(),
{
    if events.len() == 0 {
        Seq::empty()
    } else {
        let before = run(v, events.drop_last());
        match fetch_of(before, events.last()) {
            Some(tf) => fetches(v, events.drop_last()).push(tf),
            None => fetches(v, events.drop_last()),
        }
    }
}

/// A widget has data exactly when a fetch for it has completed, and a series
/// is on display only when the widget has data.
pub proof fn lemma_data_only_from_completed_fetches(
    symbol: Seq<char>,
    timeframe: Timeframe,
    events: Seq<CacheEvent>,
)
    ensures
        run(CacheView::initial(symbol, timeframe), events).has_data() <==> exists|i: int|
            0 <= i < events.len() && events[i] is Completed,
        run(CacheView::initial(symbol, timeframe), events).shown() is Some ==> run(
            CacheView::initial(symbol, timeframe),
            events,
        ).has_data(),
    decreases events.len(),
{
    let start = CacheView::initial(symbol, timeframe);
    if events.len() == 0 {
        assert(!start.has_data());
    } else {
        let head = events.drop_last();
        let before = run(start, head);
        let after = run(start, events);
        lemma_data_only_from_completed_fetches(symbol, timeframe, head);
        match events.last() {
            CacheEvent::Completed { timeframe: tf, series } => {
                assert(after.entries.contains_key(tf));
                assert(events[events.len() - 1] is Completed);
            },
            _ => {
                assert(after.entries == before.entries);
                if before.has_data() {
                    let i = choose|i: int| 0 <= i < head.len() && head[i] is Completed;
                    assert(events[i] is Completed);
                }
                if exists|i: int| 0 <= i < events.len() && events[i] is Completed {
                    let i = choose|i: int| 0 <= i < events.len() && events[i] is Completed;
                    assert(head[i] is Completed);
                }
            },
        }
    }
    let last = run(start, events);
    if last.shown() is Some {
        assert(last.entries.contains_key(last.active));
    }
}

/// A series that was fetched for a timeframe is served from the cache when
/// the user switches away and back within the freshness window: the switch
/// back is a hit, neither it nor a refresh asks for a fetch, and the series
/// on display is the fetched one, unchanged.
pub proof fn lemma_cache_round_trip(
    v: CacheView,
    timeframe: Timeframe,
    series: SeriesView,
    away: Timeframe,
    left_at: u64,
    back_at: u64,
)
    requires
        age(back_at, series.fetched_at) <= FRESHNESS_MS,
        away != timeframe,
    ensures
        ({
            let events = seq![
                CacheEvent::Completed { timeframe, series },
                CacheEvent::SetTimeframe { timeframe: away, now: left_at },
                CacheEvent::SetTimeframe { timeframe, now: back_at },
                CacheEvent::Refresh { now: back_at },
            ];
            &&& fetches(v, events) == Seq::<Timeframe>::empty()
            &&& run(v, events).active == timeframe
            &&& run(v, events).pending is None
            &&& run(v, events).shown() == Some(series)
        }),
{
    let e0 = CacheEvent::Completed { timeframe, series };
    let e1 = CacheEvent::SetTimeframe { timeframe: away, now: left_at };
    let e2 = CacheEvent::SetTimeframe { timeframe, now: back_at };
    let e3 = CacheEvent::Refresh { now: back_at };
    let events = seq![e0, e1, e2, e3];
    let p3 = events.drop_last();
    let p2 = p3.drop_last();
    let p1 = p2.drop_last();
    let p0 = p1.drop_last();
    assert(p3 =~= seq![e0, e1, e2]);
    assert(p2 =~= seq![e0, e1]);
    assert(p1 =~= seq![e0]);
    assert(p0 =~= Seq::<CacheEvent>::empty());
    assert(run(v, p0) == v);
    let s1 = run(v, p1);
    assert(s1 == step(v, e0));
    let s2 = run(v, p2);
    assert(s2 == step(s1, e1));
    assert(s2.entries == s1.entries);
    let s3 = run(v, p3);
    assert(s3 == step(s2, e2));
    assert(s2.is_fresh(timeframe, back_at));
    let s4 = run(v, events);
    assert(s4 == step(s3, e3));
    assert(fetches(v, p0) == Seq::<Timeframe>::empty());
    assert(fetches(v, p1) == Seq::<Timeframe>::empty());
    assert(fetches(v, p2) == Seq::<Timeframe>::empty());
    assert(fetches(v, p3) == Seq::<Timeframe>::empty());
    assert(s3.is_fresh(timeframe, back_at));
}

/// Every event of the run is a switch of the timeframe or a tick.
#[verifier::opaque]
pub open spec fn only_switches_and_ticks(events: Seq<CacheEvent>) -> bool {
    forall|i: int| 0 <= i < events.len() ==> events[i] is SetTimeframe || events[i] is Tick
}

/// The clock never goes back from one event of the run to a later one.
#[verifier::opaque]
pub open spec fn times_ascend(events: Seq<CacheEvent>) -> bool {
    forall|i: int, j: int| 0 <= i <= j < events.len() ==> events[i].time() <= events[j].time()
}

/// No switch of the run finds a fresh series in the cache.
#[verifier::opaque]
pub open spec fn switches_miss(v: CacheView, events: Seq<CacheEvent>) -> bool {
    forall|i: int|
        0 <= i < events.len() && events[i] is SetTimeframe ==> !v.is_fresh(
            events[i]->SetTimeframe_timeframe,
            events[i].time(),
        )
}

/// No event strictly between the places `m` and `n` is a switch.
pub open spec fn no_switch_between(events: Seq<CacheEvent>, m: int, n: int) -> bool {
    forall|k: int| m < k < n ==> !(#[trigger] events[k] is SetTimeframe)
}

/// Every switch up to place `last` comes less than one quiet period after
/// the switch before it.
#[verifier::opaque]
pub open spec fn switches_are_close(events: Seq<CacheEvent>, last: int) -> bool {
    forall|m: int, n: int|
        0 <= m < n <= last && events[m] is SetTimeframe && events[n] is SetTimeframe
            && no_switch_between(events, m, n) ==> events[n].time() - events[m].time() < QUIET_MS
}

/// A run of timeframe switches that follow one another within the quiet
/// period, with ticks in between and after it: the run begins with a switch,
/// `last` is the place of the last switch, every switch misses the cache,
/// and the run ends with a tick at least one quiet period after the last
/// switch.
pub open spec fn is_quiet_burst(v: CacheView, events: Seq<CacheEvent>, last: int) -> bool {
    &&& 0 <= last < events.len() - 1
    &&& events[0] is SetTimeframe
    &&& events[last] is SetTimeframe
    &&& only_switches_and_ticks(events)
    &&& no_switch_between(events, last, events.len() as int)
    &&& times_ascend(events)
    &&& switches_miss(v, events)
    &&& switches_are_close(events, last)
    &&& events.last().time() - events[last].time() >= QUIET_MS
}

/// Rapid switching is coalesced: however many switches follow one another
/// within the quiet period, the cache asks for exactly one fetch, and it is
/// for the timeframe that was picked last, which is then the active one.
pub proof fn lemma_rapid_switches_fetch_once(v: CacheView, events: Seq<CacheEvent>, last: int)
    requires
        is_quiet_burst(v, events, last),
    ensures
        fetches(v, events) == seq![events[last]->SetTimeframe_timeframe],
        run(v, events).active == events[last]->SetTimeframe_timeframe,
        run(v, events).pending is None,
        run(v, events).entries == v.entries,
{
    let n = events.len() - 1;
    lemma_after_burst(v, events, last, n);
    assert(events.take(n + 1) =~= events);
    assert(events.last() == events[n]);
}

/// The place of the last switch at or before place `n`.
spec fn last_switch(events: Seq<CacheEvent>, n: int) -> int
    decreases n,
{
    if n <= 0 || events[n] is SetTimeframe {
        n
    } else {
        last_switch(events, n - 1)
    }
}

/// The place of the first switch after place `n`, given that there is one at
/// or before `bound`.
spec fn next_switch(events: Seq<CacheEvent>, n: int, bound: int) -> int
    decreases bound - n,
{
    if n + 1 >= bound || events[n + 1] is SetTimeframe {
        n + 1
    } else {
        next_switch(events, n + 1, bound)
    }
}

proof fn lemma_last_switch(events: Seq<CacheEvent>, n: int)
    requires
        0 <= n < events.len(),
        events[0] is SetTimeframe,
    ensures
        0 <= last_switch(events, n) <= n,
        events[last_switch(events, n)] is SetTimeframe,
        no_switch_between(events, last_switch(events, n), n + 1),
    decreases n,
{
    if n > 0 && !(events[n] is SetTimeframe) {
        lemma_last_switch(events, n - 1);
    }
}

proof fn lemma_next_switch(events: Seq<CacheEvent>, n: int, bound: int)
    requires
        0 <= n < bound < events.len(),
        events[bound] is SetTimeframe,
    ensures
        n < next_switch(events, n, bound) <= bound,
        events[next_switch(events, n, bound)] is SetTimeframe,
        no_switch_between(events, n, next_switch(events, n, bound)),
    decreases bound - n,
{
    if n + 1 < bound && !(events[n + 1] is SetTimeframe) {
        lemma_next_switch(events, n + 1, bound);
    }
}

/// A tick between two switches of a quiet burst comes less than one quiet
/// period after the switch before it.
proof fn lemma_tick_inside_burst(events: Seq<CacheEvent>, last: int, n: int)
    requires
        0 < n < last < events.len(),
        events[0] is SetTimeframe,
        events[last] is SetTimeframe,
        !(events[n] is SetTimeframe),
        times_ascend(events),
        switches_are_close(events, last),
    ensures
        events[last_switch(events, n - 1)].time() <= events[n].time(),
        events[n].time() - events[last_switch(events, n - 1)].time() < QUIET_MS,
{
    lemma_last_switch(events, n - 1);
    let m = last_switch(events, n - 1);
    lemma_next_switch(events, n, last);
    let nx = next_switch(events, n, last);
    assert(no_switch_between(events, m, nx)) by {
        assert forall|k: int| m < k < nx implies !(#[trigger] events[k] is SetTimeframe) by {
            if k < n {
                assert(no_switch_between(events, m, n));
            } else if k > n {
                assert(no_switch_between(events, n, nx));
            }
        }
    }
    assert(events[nx].time() - events[m].time() < QUIET_MS) by {
        reveal(switches_are_close);
    }
    assert(events[n].time() <= events[nx].time() && events[m].time() <= events[n].time()) by {
        reveal(times_ascend);
    }
}

/// The pending change that the switch at place `m` leaves behind.
spec fn change_at(events: Seq<CacheEvent>, m: int) -> PendingChange {
    PendingChange {
        timeframe: events[m]->SetTimeframe_timeframe,
        requested_at: events[m].time(),
    }
}

/// The state in which the cache waits for the switch at place `m` to settle.
spec fn waiting_for(v: CacheView, events: Seq<CacheEvent>, m: int) -> CacheView {
    CacheView { pending: Some(change_at(events, m)), ..v }
}

/// The state and the fetches after one more event.
proof fn lemma_one_more(v: CacheView, events: Seq<CacheEvent>, n: int)
    requires
        0 <= n < events.len(),
    ensures
        run(v, events.take(n + 1)) == step(run(v, events.take(n)), events[n]),
        fetches(v, events.take(n + 1)) == match fetch_of(run(v, events.take(n)), events[n]) {
            Some(tf) => fetches(v, events.take(n)).push(tf),
            None => fetches(v, events.take(n)),
        },
{
    let prefix = events.take(n + 1);
    assert(prefix.drop_last() =~= events.take(n));
    assert(prefix.last() == events[n]);
}

/// Up to the last switch of a quiet burst nothing is fetched, and the cache
/// waits for the switch that came last so far.
proof fn lemma_during_burst(v: CacheView, events: Seq<CacheEvent>, last: int, n: int)
    requires
        is_quiet_burst(v, events, last),
        0 <= n <= last,
    ensures
        run(v, events.take(n + 1)) == waiting_for(v, events, last_switch(events, n)),
        fetches(v, events.take(n + 1)) == Seq::<Timeframe>::empty(),
    decreases n,
{
    lemma_one_more(v, events, n);
    let e = events[n];
    let before = run(v, events.take(n));
    if n == 0 {
        assert(events.take(0) =~= Seq::<CacheEvent>::empty());
        assert(before == v);
    } else {
        lemma_during_burst(v, events, last, n - 1);
    }
    assert(before.entries == v.entries);
    if e is SetTimeframe {
        assert(!v.is_fresh(e->SetTimeframe_timeframe, e.time())) by {
            reveal(switches_miss);
        }
        assert(!before.is_fresh(e->SetTimeframe_timeframe, e.time()));
    } else {
        assert(e is Tick) by {
            reveal(only_switches_and_ticks);
        }
        lemma_tick_inside_burst(events, last, n);
        let m = last_switch(events, n - 1);
        assert(before.pending == Some(change_at(events, m)));
        assert(age(e.time(), events[m].time()) < QUIET_MS);
        assert(!before.tick_due(e.time()));
    }
}

/// After the last switch of a quiet burst the cache either still waits, and
/// then less than one quiet period has passed, or it has fetched once, for
/// the timeframe of the last switch.
proof fn lemma_after_burst(v: CacheView, events: Seq<CacheEvent>, last: int, n: int)
    requires
        is_quiet_burst(v, events, last),
        last <= n < events.len(),
    ensures
        ({
            let state = run(v, events.take(n + 1));
            let asked = fetches(v, events.take(n + 1));
            let target = events[last]->SetTimeframe_timeframe;
            ||| (state == waiting_for(v, events, last) && asked == Seq::<Timeframe>::empty()
                && events[n].time() - events[last].time() < QUIET_MS)
            ||| (state == (CacheView { active: target, pending: None, ..v }) && asked
                == seq![target])
        }),
    decreases n,
{
    if n == last {
        lemma_during_burst(v, events, last, n);
        assert(last_switch(events, last) == last);
    } else {
        lemma_after_burst(v, events, last, n - 1);
        lemma_one_more(v, events, n);
        let e = events[n];
        let before = run(v, events.take(n));
        assert(e is Tick) by {
            reveal(only_switches_and_ticks);
        }
        assert(events[last].time() <= e.time()) by {
            reveal(times_ascend);
        }
        if before.pending is Some {
            assert(before == waiting_for(v, events, last));
            assert(age(e.time(), events[last].time()) == e.time() - events[last].time());
            if e.time() - events[last].time() >= QUIET_MS {
                assert(before.tick_due(e.time()));
            } else {
                assert(!before.tick_due(e.time()));
            }
        } else {
            assert(!before.tick_due(e.time()));
        }
    }
}

} // verus!
