//! What holds of the host across events, and of the host and the settings
//! process together.

use vstd::prelude::*;
use crate::host::{deadline, ActionView, HostView, MINUTE_MS, POLL_MS};
use crate::ipc::{MessageKind, MessageView};
use crate::language::AppError;
use crate::registry::{
    distinct_ids, has_id, lemma_snapshot_holds_active_only, place_of, WidgetState, WidgetView,
};
use crate::settings::{ClientView, EventView};
use crate::ipc::ChartView;

verus! {

/// The host's state is in order: no two widgets share an id and the refresh
/// interval is not zero.
pub open spec fn host_wf(host: HostView) -> bool {
    &&& distinct_ids(host.widgets)
    &&& host.update_interval > 0
}

/// None of the actions speaks to the settings process.
pub open spec fn sends_nothing(actions: Seq<ActionView>) -> bool {
    forall|k: int| 0 <= k < actions.len() ==> !(#[trigger] actions[k] is Send)
}

/// A speculative add that fails leaves no trace: when the first fetch of a
/// freshly added widget fails, the registry is what it was before the add,
/// so the widget is in no later snapshot and not in the persisted settings;
/// the add itself tells the settings process nothing, and the failure asks
/// for no save.
pub proof fn lemma_failed_add_leaves_no_trace(
    host: HostView,
    id: Seq<char>,
    symbol: Seq<char>,
    error: AppError,
)
    requires
        host_wf(host),
        host.can_add(id, symbol),
    ensures
        ({
            let added = host.after_add(id, symbol);
            let failed = added.after_fetch_failed(id);
            &&& sends_nothing(host.actions_add(id, symbol))
            &&& added.snapshot() == host.snapshot()
            &&& added.persisted() == host.persisted()
            &&& failed == host
            &&& !has_id(failed.widgets, id)
            &&& !added.actions_fetch_failed(id, error).contains(ActionView::Persist)
            &&& added.actions_fetch_failed(id, error)[0] == (ActionView::CloseWindow { id })
        }),
{
    let added = host.after_add(id, symbol);
    let w = WidgetView::pending(id, symbol);
    let n = host.widgets.len() as int;
    assert(added.widgets.drop_last() =~= host.widgets);
    assert(added.widgets.last() == w);
    assert(added.widgets[n].id == id);
    assert(has_id(added.widgets, id));
    let p = place_of(added.widgets, id);
    if p < n {
        assert(host.widgets[p].id == id);
        assert(has_id(host.widgets, id));
    }
    assert(p == n);
    assert(added.widgets.remove(n) =~= host.widgets);
    let failed = added.after_fetch_failed(id);
    assert(failed.widgets == host.widgets);
    let acts = added.actions_fetch_failed(id, error);
    assert forall|k: int| 0 <= k < acts.len() implies acts[k] != ActionView::Persist by {}
}

/// The widget list that the host holds does not depend on who is connected:
/// it is the same after the settings process went away and came back, and a
/// request for it is answered with the whole current list.
pub proof fn lemma_snapshot_survives_reconnect(host: HostView, now: u64, fresh: Seq<char>)
    ensures
        ({
            let gone = HostView { client_connected: false, ..host };
            let back = HostView { client_connected: true, ..gone };
            &&& back.snapshot() == host.snapshot()
            &&& back.config() == host.config()
            &&& back.actions_message(MessageView::GetCharts, now, fresh) == seq![
                ActionView::Send(MessageView::Charts(host.snapshot())),
            ]
            &&& back.actions_message(MessageView::GetConfig, now, fresh) == seq![
                ActionView::Send(MessageView::Config(host.config())),
            ]
            &&& back.after_message(MessageView::GetCharts, now, fresh) == back
            &&& gone.actions_message(MessageView::GetCharts, now, fresh) == Seq::<
                ActionView,
            >::empty()
        }),
{
}

/// A lock toggle on an active widget shows in the snapshot: the widget's
/// chart in the new list carries the new lock, and nothing else of it has
/// changed.
pub proof fn lemma_lock_shows_in_snapshot(host: HostView, id: Seq<char>, locked: bool, now: u64)
    requires
        host_wf(host),
        has_id(host.widgets, id),
        host.widgets[place_of(host.widgets, id)].state == WidgetState::Active,
    ensures
        ({
            let after = host.after_toggle_lock(id, locked, now);
            let before_chart = host.widgets[place_of(host.widgets, id)].chart();
            &&& host_wf(after)
            &&& after.snapshot().contains(ChartView { locked, ..before_chart })
            &&& after.widgets.len() == host.widgets.len()
            &&& after.dirty_since is Some
        }),
{
    let p = place_of(host.widgets, id);
    let after = host.after_toggle_lock(id, locked, now);
    assert(after.widgets[p].chart() == ChartView { locked, ..host.widgets[p].chart() });
    assert forall|i: int, j: int| 0 <= i < j < after.widgets.len() implies after.widgets[i].id
        != after.widgets[j].id by {
        assert(host.widgets[i].id != host.widgets[j].id);
    }
    lemma_snapshot_holds_active_only(after.widgets);
    assert(after.widgets[p].state == WidgetState::Active);
}

/// A change of the refresh interval takes effect from the moment of the
/// change: whenever the last refresh was and whatever was scheduled, the
/// next one is due exactly one new interval after the change, and not
/// before.
pub proof fn lemma_interval_change_reschedules(host: HostView, minutes: u64, now: u64, at: u64)
    requires
        minutes > 0,
        now + minutes * MINUTE_MS <= u64::MAX,
    ensures
        ({
            let after = host.after_set_interval(minutes, now);
            &&& after.update_interval == minutes
            &&& after.next_refresh == now + minutes * MINUTE_MS
            &&& after.refresh_due(at) <==> at >= now + minutes * MINUTE_MS
            &&& after.after_tick(after.next_refresh).next_refresh == deadline(
                after.next_refresh,
                minutes * MINUTE_MS,
            )
        }),
{
}

/// The host is authoritative and the settings process converges: a
/// mutation that the host applies is followed, while a settings process is
/// connected, by a push of the state it changed, as it is after the change.
pub proof fn lemma_mutation_is_followed_by_push(
    host: HostView,
    message: MessageView,
    now: u64,
    fresh: Seq<char>,
)
    requires
        host_wf(host),
        host.client_connected,
    ensures
        ({
            let after = host.after_message(message, now, fresh);
            let actions = host.actions_message(message, now, fresh);
            let charts = ActionView::Send(MessageView::Charts(after.snapshot()));
            let config = ActionView::Send(MessageView::Config(after.config()));
            &&& (message matches MessageView::DeleteChart(id) && has_id(host.widgets, id))
                ==> actions.contains(charts)
            &&& (message matches MessageView::ToggleChartLock(id, _) && has_id(host.widgets, id))
                ==> actions.contains(charts)
            &&& (message matches MessageView::SetChartTimeframe(id, code)
                && host.can_set_timeframe(id, code)) ==> actions.contains(charts)
            &&& message is SetLanguage ==> actions.contains(config)
            &&& (message matches MessageView::SetUpdateInterval(m) && m > 0) ==> actions.contains(
                config,
            )
            &&& message is SetAutoStart ==> actions.contains(config)
            &&& message is SetUsePrereleases ==> actions.contains(config)
        }),
{
    let after = host.after_message(message, now, fresh);
    let actions = host.actions_message(message, now, fresh);
    let charts = ActionView::Send(MessageView::Charts(after.snapshot()));
    let config = ActionView::Send(MessageView::Config(after.config()));
    match message {
        MessageView::DeleteChart(id) => {
            if has_id(host.widgets, id) {
                assert(actions[1] == charts);
            }
        },
        MessageView::ToggleChartLock(id, locked) => {
            if has_id(host.widgets, id) {
                assert(actions[1] == charts);
            }
        },
        MessageView::SetChartTimeframe(id, code) => {
            if host.can_set_timeframe(id, code) {
                let k = actions.len() - 2;
                assert(actions[k] == charts);
            }
        },
        MessageView::SetLanguage(code) => {
            assert(actions[0] == config);
        },
        MessageView::SetUpdateInterval(m) => {
            if m > 0 {
                assert(actions[0] == config);
            }
        },
        MessageView::SetAutoStart(enabled) => {
            assert(actions[1] == config);
        },
        MessageView::SetUsePrereleases(enabled) => {
            assert(actions[0] == config);
        },
        _ => {},
    }
}

/// Only the settings process asks and only the host pushes: a message of
/// the kind that the host sends changes nothing when the host receives it.
pub proof fn lemma_host_ignores_pushes(host: HostView, message: MessageView, now: u64, fresh: Seq<char>)
    requires
        message.kind() == MessageKind::Push,
    ensures
        host.after_message(message, now, fresh) == host,
        host.actions_message(message, now, fresh) == Seq::<ActionView>::empty(),
{
}

/// A message or a result for a widget that is gone is dropped: it changes
/// nothing and asks for nothing.
pub proof fn lemma_unknown_widget_is_ignored(
    host: HostView,
    id: Seq<char>,
    message: MessageView,
    now: u64,
    fresh: Seq<char>,
    error: AppError,
)
    requires
        !has_id(host.widgets, id),
        message == MessageView::DeleteChart(id) || (message matches MessageView::ToggleChartLock(
            i,
            _,
        ) && i == id) || (message matches MessageView::SetChartTimeframe(i, _) && i == id),
    ensures
        host.after_message(message, now, fresh) == host,
        host.actions_message(message, now, fresh) == Seq::<ActionView>::empty(),
        host.after_fetch_failed(id) == host,
        host.actions_fetch_failed(id, error) == Seq::<ActionView>::empty(),
        forall|tf: crate::timeframe::Timeframe, series: crate::series::SeriesView|
            #[trigger] host.after_fetch_completed(id, tf, series) == host,
        host.after_remove(id) == host,
{
}

/// The host neither oversleeps nor spins: it wakes no later than the next
/// timer and no later than one poll period from now, and it wakes after now
/// unless a timer has already run out.
pub proof fn lemma_wake_is_bounded(host: HostView, now: u64)
    requires
        now < u64::MAX,
    ensures
        now <= host.next_wake(now) <= now + POLL_MS,
        host.next_timer() > now ==> now < host.next_wake(now) <= host.next_timer(),
        host.next_timer() <= now ==> host.next_wake(now) == now,
        host.next_timer() <= host.next_refresh,
        host.next_timer() <= host.next_update_check,
        host.dirty_since is Some ==> host.next_timer() <= deadline(
            host.dirty_since->0,
            crate::host::SAVE_MS as int,
        ),
{
}

/// Reconnection converges: after the settings process lost the connection
/// and got it back, it asks for the widget list and the settings, the host
/// answers both requests with its current state, and what the settings
/// process then holds is what the host holds, whatever either of them held
/// before.
pub proof fn lemma_reconnect_converges(host: HostView, client: ClientView, now: u64)
    ensures
        ({
            let lost = client.after(EventView::IpcClosed);
            let asked = lost.sent(EventView::IpcConnected);
            let back = lost.after(EventView::IpcConnected);
            let serving = HostView { client_connected: true, ..host };
            let first = serving.actions_message(asked[0], now, Seq::empty());
            let second = serving.actions_message(asked[1], now, Seq::empty());
            let told = back.after(EventView::IpcServerMessage(first[0]->Send_0)).after(
                EventView::IpcServerMessage(second[0]->Send_0),
            );
            &&& asked.len() == 2
            &&& first.len() == 1 && first[0] is Send
            &&& second.len() == 1 && second[0] is Send
            &&& serving.after_message(asked[0], now, Seq::empty()) == serving
            &&& serving.after_message(asked[1], now, Seq::empty()) == serving
            &&& told.charts == host.snapshot()
            &&& told.config == Some(host.config())
        }),
{
}

} // verus!
