//! The orchestrator: the one owner of the widget registry. It takes every
//! event of the host process, changes the registry, and answers with the
//! actions that the process is to carry out.

use vstd::prelude::*;
use crate::config::{widget_config_views, AppConfig, WidgetConfig, DEFAULT_INTERVAL_MIN};
use crate::host::{
    configs_of, deadline, opening_actions, restored_widget, restored_widgets, tick_fetches, ticked,
    ActionView, HostView, MINUTE_MS, POLL_MS, SAVE_MS, UPDATE_CHECK_MS,
};
use crate::host_laws::host_wf;
use crate::ipc::{ConfigData, IpcMessage, UpdateStatus};
use crate::language::{get_error_text, AppError};
use crate::registry::{Geometry, WidgetRegistry, WidgetState, WidgetView};
use crate::series::QuoteSeries;
use crate::settings::language_from_code;
use crate::text::{owned, to_upper, uppercase_of};
use crate::timeframe::Timeframe;

verus! {

/// Something the host process is asked to do.
#[derive(Debug)]
pub enum Action {
    OpenWindow { id: String, symbol: String, locked: bool, geometry: Option<Geometry> },
    CloseWindow { id: String },
    DragWindow { id: String },
    StartFetch { id: String, symbol: String, timeframe: Timeframe },
    ShowSeries { id: String, timeframe: Timeframe },
    SetLocked { id: String, locked: bool },
    ShowError { id: String, text: String },
    Send(IpcMessage),
    Persist,
    SetAutostart(bool),
    CheckUpdate { use_prereleases: bool },
    ApplyUpdate { use_prereleases: bool },
    NotifyUpdate { version: String },
    Restart,
    LaunchSettings,
    Exit,
}

impl View for Action {
    type V = ActionView;

    open spec fn view(&self) -> ActionView {
        match self {
            Action::OpenWindow { id, symbol, locked, geometry } => ActionView::OpenWindow {
                id: id@,
                symbol: symbol@,
                locked: *locked,
                geometry: *geometry,
            },
            Action::CloseWindow { id } => ActionView::CloseWindow { id: id@ },
            Action::DragWindow { id } => ActionView::DragWindow { id: id@ },
            Action::StartFetch { id, symbol, timeframe } => ActionView::StartFetch {
                id: id@,
                symbol: symbol@,
                timeframe: *timeframe,
            },
            Action::ShowSeries { id, timeframe } => ActionView::ShowSeries {
                id: id@,
                timeframe: *timeframe,
            },
            Action::SetLocked { id, locked } => ActionView::SetLocked { id: id@, locked: *locked },
            Action::ShowError { id, text } => ActionView::ShowError { id: id@, text: text@ },
            Action::Send(message) => ActionView::Send(message@),
            Action::Persist => ActionView::Persist,
            Action::SetAutostart(enabled) => ActionView::SetAutostart(*enabled),
            Action::CheckUpdate { use_prereleases } => ActionView::CheckUpdate {
                use_prereleases: *use_prereleases,
            },
            Action::ApplyUpdate { use_prereleases } => ActionView::ApplyUpdate {
                use_prereleases: *use_prereleases,
            },
            Action::NotifyUpdate { version } => ActionView::NotifyUpdate { version: version@ },
            Action::Restart => ActionView::Restart,
            Action::LaunchSettings => ActionView::LaunchSettings,
            Action::Exit => ActionView::Exit,
        }
    }
}

/// What a list of actions holds.
pub open spec fn action_views(actions: Seq<Action>) -> Seq<ActionView> {
    Seq::new(actions.len(), |i: int| actions[i]@)
}

/// The host's state and its one owner.
#[derive(Debug)]
pub struct Orchestrator {
    registry: WidgetRegistry,
    language: String,
    update_interval: u64,
    auto_start: bool,
    use_prereleases: bool,
    client_connected: bool,
    dirty_since: Option<u64>,
    next_refresh: u64,
    next_update_check: u64,
}

impl View for Orchestrator {
    type V = HostView;

    closed spec fn view(&self) -> HostView {
        HostView {
            widgets: self.registry@,
            language: self.language@,
            update_interval: self.update_interval,
            auto_start: self.auto_start,
            use_prereleases: self.use_prereleases,
            client_connected: self.client_connected,
            dirty_since: self.dirty_since,
            next_refresh: self.next_refresh,
            next_update_check: self.next_update_check,
        }
    }
}

fn deadline_after(now: u64, delay: u64) -> (r: u64)
    ensures
        r == deadline(now, delay as int),
{
    if now <= u64::MAX - delay {
        now + delay
    } else {
        u64::MAX
    }
}

fn interval_deadline(now: u64, minutes: u64) -> (r: u64)
    ensures
        r == deadline(now, minutes * MINUTE_MS),
{
    if minutes <= u64::MAX / MINUTE_MS {
        deadline_after(now, minutes * MINUTE_MS)
    } else {
        u64::MAX
    }
}

impl Orchestrator {
    /// The registry is in order and the refresh interval is not zero.
    pub closed spec fn wf(&self) -> bool {
        &&& self.registry.wf()
        &&& self.update_interval > 0
    }

    /// The state of a well-formed orchestrator is in order, so what holds of
    /// every such state holds of it.
    pub proof fn lemma_wf(&self)
        requires
            self.wf(),
        ensures
            host_wf(self@),
    {
        self.registry.lemma_wf();
    }

    /// Adds the action that sends `message`, if a settings process is
    /// connected.
    fn push_message(&self, out: &mut Vec<Action>, message: IpcMessage)
        ensures
            action_views(final(out)@) == action_views(old(out)@) + self@.push(message@),
    {
        if self.client_connected {
            out.push(Action::Send(message));
            assert(action_views(out@) =~= action_views(old(out)@) + self@.push(message@));
        } else {
            assert(action_views(out@) =~= action_views(old(out)@) + self@.push(message@));
        }
    }

    /// Adds the push of the current widget list.
    fn push_charts(&self, out: &mut Vec<Action>)
        requires
            self.wf(),
        ensures
            action_views(final(out)@) == action_views(old(out)@) + self@.push_charts(),
    {
        let charts = self.registry.snapshot();
        self.push_message(out, IpcMessage::Charts(charts));
    }

    /// Adds the push of the current global settings.
    fn push_config(&self, out: &mut Vec<Action>)
        ensures
            action_views(final(out)@) == action_views(old(out)@) + self@.push_config(),
    {
        let config = self.config();
        self.push_message(out, IpcMessage::Config(config));
    }

    /// Adds what a change of a global setting asks for.
    fn settings_changed(&self, out: &mut Vec<Action>)
        ensures
            action_views(final(out)@) == action_views(old(out)@)
                + self@.actions_settings_changed(),
    {
        self.push_config(out);
        let ghost mid = action_views(out@);
        out.push(Action::Persist);
        assert(action_views(out@) =~= mid.push(ActionView::Persist));
        assert(action_views(out@) =~= action_views(old(out)@) + self@.actions_settings_changed());
    }

    /// The global settings as the settings process sees them.
    pub fn config(&self) -> (r: ConfigData)
        ensures
            r@ == self@.config(),
    {
        ConfigData {
            language: self.language.clone(),
            update_interval: self.update_interval,
            auto_start: self.auto_start,
            use_prereleases: self.use_prereleases,
        }
    }

    /// The widgets, for reading.
    pub fn registry(&self) -> (r: &WidgetRegistry)
        requires
            self.wf(),
        ensures
            r.wf(),
            r@ == self@.widgets,
    {
        &self.registry
    }

    /// Whether a settings process is connected.
    pub fn client_connected(&self) -> (r: bool)
        ensures
            r == self@.client_connected,
    {
        self.client_connected
    }

    /// Whether the registry holds changes that wait for the save timer.
    pub fn is_dirty(&self) -> (r: bool)
        ensures
            r == self@.dirty_since.is_some(),
    {
        self.dirty_since.is_some()
    }

    /// When the next scheduled refresh is due.
    pub fn next_refresh(&self) -> (r: u64)
        ensures
            r == self@.next_refresh,
    {
        self.next_refresh
    }

    /// Takes an add request for a symbol that is already in upper case,
    /// under an id that was drawn for it: a pending widget is created, its
    /// window is opened and its first fetch started. The settings process
    /// hears nothing of it before that fetch succeeds. A request without a
    /// symbol, or with an id that is taken, changes nothing.
    pub fn add_widget_with(&mut self, id: String, symbol: String) -> (actions: Vec<Action>)
        requires
            old(self).wf(),
        ensures
            final(self).wf(),
            final(self)@ == old(self)@.after_add(id@, symbol@),
            action_views(actions@) == old(self)@.actions_add(id@, symbol@),
    {
        let mut out: Vec<Action> = Vec::new();
        let open = Action::OpenWindow {
            id: id.clone(),
            symbol: symbol.clone(),
            locked: true,
            geometry: None,
        };
        let fetch = Action::StartFetch {
            id: id.clone(),
            symbol: symbol.clone(),
            timeframe: Timeframe::OneMonth,
        };
        if self.registry.insert_pending(id, symbol) {
            out.push(open);
            out.push(fetch);
        }
        assert(action_views(out@) =~= old(self)@.actions_add(id@, symbol@));
        out
    }

    /// Takes an add request as the user typed it: the symbol is put in upper
    /// case and a fresh id is drawn for the widget.
    pub fn add_widget(&mut self, raw: &str) -> (actions: Vec<Action>)
        requires
            old(self).wf(),
        ensures
            final(self).wf(),
            raw@.len() == 0 ==> final(self)@ == old(self)@ && actions@.len() == 0,
            raw@.len() > 0 ==> exists|fresh: Seq<char>|
                final(self)@ == old(self)@.after_add(fresh, uppercase_of(raw@)) && action_views(
                    actions@,
                ) == #[trigger] old(self)@.actions_add(fresh, uppercase_of(raw@)),
    {
        if raw.is_empty() {
            return Vec::new();
        }
        let symbol = to_upper(raw);
        let id = crate::config::fresh_id();
        self.add_widget_with(id, symbol)
    }

    /// Takes a delete request or the closing of a widget's window: the
    /// widget is removed, the settings process gets the new list, and the
    /// settings are saved. A request for an id that no widget has is ignored.
    pub fn remove_widget(&mut self, id: &str) -> (actions: Vec<Action>)
        requires
            old(self).wf(),
        ensures
            final(self).wf(),
            final(self)@ == old(self)@.after_remove(id@),
            action_views(actions@) == old(self)@.actions_remove(id@),
    {
        let mut out: Vec<Action> = Vec::new();
        match self.registry.find(id) {
            Some(i) => {
                let _ = self.registry.remove_at(i);
                self.dirty_since = None;
                out.push(Action::CloseWindow { id: owned(id) });
                assert(action_views(out@) =~= seq![ActionView::CloseWindow { id: id@ }]);
                self.push_charts(&mut out);
                let ghost mid = action_views(out@);
                out.push(Action::Persist);
                assert(action_views(out@) =~= mid.push(ActionView::Persist));
                assert(action_views(out@) =~= old(self)@.actions_remove(id@));
            },
            None => {
                assert(action_views(out@) =~= old(self)@.actions_remove(id@));
            },
        }
        out
    }

    /// Takes a lock toggle: the widget and its window are locked or
    /// unlocked and the settings process gets the new list; the change is
    /// saved when the save timer runs out. An unknown id is ignored.
    pub fn toggle_lock(&mut self, id: &str, locked: bool, now: u64) -> (actions: Vec<Action>)
        requires
            old(self).wf(),
        ensures
            final(self).wf(),
            final(self)@ == old(self)@.after_toggle_lock(id@, locked, now),
            action_views(actions@) == old(self)@.actions_toggle_lock(id@, locked, now),
    {
        let mut out: Vec<Action> = Vec::new();
        match self.registry.find(id) {
            Some(i) => {
                self.registry.lock_at(i, locked);
                self.mark_dirty(now);
                out.push(Action::SetLocked { id: owned(id), locked });
                assert(action_views(out@) =~= seq![ActionView::SetLocked { id: id@, locked }]);
                self.push_charts(&mut out);
            },
            None => {
                assert(action_views(out@) =~= old(self)@.actions_toggle_lock(id@, locked, now));
            },
        }
        out
    }

    /// Notes a change that waits for the save timer.
    fn mark_dirty(&mut self, now: u64)
        requires
            old(self).wf(),
        ensures
            final(self).wf(),
            final(self)@ == old(self)@.dirtied(now),
    {
        if self.dirty_since.is_none() {
            self.dirty_since = Some(now);
        }
    }

    /// Takes a timeframe change: the choice goes to the widget's cache, which
    /// serves it at once from a fresh series or notes it for the debounced
    /// fetch; the settings process gets the new list and the settings are
    /// saved. An unknown id or label is ignored.
    pub fn set_timeframe(&mut self, id: &str, code: &str, now: u64) -> (actions: Vec<Action>)
        requires
            old(self).wf(),
        ensures
            final(self).wf(),
            final(self)@ == old(self)@.after_set_timeframe(id@, code@, now),
            action_views(actions@) == old(self)@.actions_set_timeframe(id@, code@, now),
    {
        let mut out: Vec<Action> = Vec::new();
        let found = self.registry.find(id);
        let parsed = Timeframe::from_code(code);
        match (found, parsed) {
            (Some(i), Some(timeframe)) => {
                let hit = self.registry.set_timeframe_at(i, timeframe, now);
                self.dirty_since = None;
                if hit {
                    out.push(Action::ShowSeries { id: owned(id), timeframe });
                }
                let ghost shown = action_views(out@);
                assert(shown =~= if hit {
                    seq![ActionView::ShowSeries { id: id@, timeframe }]
                } else {
                    Seq::empty()
                });
                self.push_charts(&mut out);
                let ghost mid = action_views(out@);
                out.push(Action::Persist);
                assert(action_views(out@) =~= mid.push(ActionView::Persist));
                assert(action_views(out@) =~= old(self)@.actions_set_timeframe(id@, code@, now));
            },
            _ => {
                assert(action_views(out@) =~= old(self)@.actions_set_timeframe(id@, code@, now));
            },
        }
        out
    }

    /// Takes a change of the language.
    pub fn set_language(&mut self, code: String) -> (actions: Vec<Action>)
        requires
            old(self).wf(),
        ensures
            final(self).wf(),
            final(self)@ == old(self)@.after_set_language(code@),
            action_views(actions@) == final(self)@.actions_settings_changed(),
    {
        let mut out: Vec<Action> = Vec::new();
        self.language = code;
        self.dirty_since = None;
        self.settings_changed(&mut out);
        assert(action_views(out@) =~= self@.actions_settings_changed());
        out
    }

    /// Takes a change of the refresh interval, in minutes: the next
    /// scheduled refresh is due one new interval after the change, whenever
    /// the last one was. An interval of zero is ignored.
    pub fn set_update_interval(&mut self, minutes: u64, now: u64) -> (actions: Vec<Action>)
        requires
            old(self).wf(),
        ensures
            final(self).wf(),
            final(self)@ == old(self)@.after_set_interval(minutes, now),
            action_views(actions@) == if minutes > 0 {
                final(self)@.actions_settings_changed()
            } else {
                Seq::empty()
            },
    {
        let mut out: Vec<Action> = Vec::new();
        if minutes > 0 {
            self.update_interval = minutes;
            self.next_refresh = interval_deadline(now, minutes);
            self.dirty_since = None;
            self.settings_changed(&mut out);
            assert(action_views(out@) =~= self@.actions_settings_changed());
        } else {
            assert(action_views(out@) =~= Seq::<ActionView>::empty());
        }
        out
    }

    /// Takes a change of the start with the system.
    pub fn set_auto_start(&mut self, enabled: bool) -> (actions: Vec<Action>)
        requires
            old(self).wf(),
        ensures
            final(self).wf(),
            final(self)@ == old(self)@.after_set_auto_start(enabled),
            action_views(actions@) == seq![ActionView::SetAutostart(enabled)]
                + final(self)@.actions_settings_changed(),
    {
        let mut out: Vec<Action> = Vec::new();
        self.auto_start = enabled;
        self.dirty_since = None;
        out.push(Action::SetAutostart(enabled));
        assert(action_views(out@) =~= seq![ActionView::SetAutostart(enabled)]);
        self.settings_changed(&mut out);
        out
    }

    /// Takes a change of the update channel.
    pub fn set_use_prereleases(&mut self, enabled: bool) -> (actions: Vec<Action>)
        requires
            old(self).wf(),
        ensures
            final(self).wf(),
            final(self)@ == old(self)@.after_set_use_prereleases(enabled),
            action_views(actions@) == final(self)@.actions_settings_changed(),
    {
        let mut out: Vec<Action> = Vec::new();
        self.use_prereleases = enabled;
        self.dirty_since = None;
        self.settings_changed(&mut out);
        assert(action_views(out@) =~= self@.actions_settings_changed());
        out
    }

    /// Takes the series of a completed fetch. It is stored under the
    /// timeframe it was fetched for and shown if that timeframe is on
    /// display; a pending widget becomes active, is told to the settings
    /// process and saved. A result for a widget that is gone is dropped.
    pub fn fetch_completed(&mut self, id: &str, timeframe: Timeframe, series: QuoteSeries) -> (actions:
        Vec<Action>)
        requires
            old(self).wf(),
        ensures
            final(self).wf(),
            final(self)@ == old(self)@.after_fetch_completed(id@, timeframe, series@),
            action_views(actions@) == old(self)@.actions_fetch_completed(id@, timeframe, series@),
    {
        let mut out: Vec<Action> = Vec::new();
        match self.registry.find(id) {
            Some(i) => {
                let widget = self.registry.get(i);
                let was_pending = widget.state() == WidgetState::Pending;
                let on_display = widget.timeframe_on_display() == timeframe;
                self.registry.complete_at(i, timeframe, series);
                if on_display {
                    out.push(Action::ShowSeries { id: owned(id), timeframe });
                }
                let ghost shown = action_views(out@);
                assert(shown =~= if on_display {
                    seq![ActionView::ShowSeries { id: id@, timeframe }]
                } else {
                    Seq::empty()
                });
                if was_pending {
                    self.dirty_since = None;
                    self.push_charts(&mut out);
                    let ghost mid = action_views(out@);
                    out.push(Action::Persist);
                    assert(action_views(out@) =~= mid.push(ActionView::Persist));
                }
                assert(action_views(out@) =~= old(self)@.actions_fetch_completed(
                    id@,
                    timeframe,
                    series@,
                ));
            },
            None => {
                assert(action_views(out@) =~= old(self)@.actions_fetch_completed(
                    id@,
                    timeframe,
                    series@,
                ));
            },
        }
        out
    }

    /// Takes the failure of a fetch. A pending widget is discarded and its
    /// window closed; an active widget keeps its series and shows the error.
    /// Either way the settings process is told the error. A failure for a
    /// widget that is gone is dropped.
    pub fn fetch_failed(&mut self, id: &str, error: &AppError) -> (actions: Vec<Action>)
        requires
            old(self).wf(),
        ensures
            final(self).wf(),
            final(self)@ == old(self)@.after_fetch_failed(id@),
            action_views(actions@) == old(self)@.actions_fetch_failed(id@, *error),
    {
        let mut out: Vec<Action> = Vec::new();
        match self.registry.find(id) {
            Some(i) => {
                let text = get_error_text(language_from_code(self.language.as_str()), error);
                if self.registry.get(i).state() == WidgetState::Pending {
                    let _ = self.registry.remove_at(i);
                    out.push(Action::CloseWindow { id: owned(id) });
                } else {
                    out.push(Action::ShowError { id: owned(id), text: text.clone() });
                }
                let ghost local = action_views(out@);
                assert(local.len() == 1);
                self.push_message(&mut out, IpcMessage::Error(text));
                assert(action_views(out@) =~= old(self)@.actions_fetch_failed(id@, *error));
            },
            None => {
                assert(action_views(out@) =~= old(self)@.actions_fetch_failed(id@, *error));
            },
        }
        out
    }

    /// Notes that the window of a widget was moved or resized; the new place
    /// is saved when the save timer runs out.
    pub fn window_moved(&mut self, id: &str, geometry: Geometry, now: u64)
        requires
            old(self).wf(),
        ensures
            final(self).wf(),
            final(self)@ == old(self)@.after_window_moved(id@, geometry, now),
    {
        match self.registry.find(id) {
            Some(i) => {
                self.registry.place_at(i, geometry);
                self.mark_dirty(now);
            },
            None => {},
        }
    }

    /// Takes a press on the window of a widget: an unlocked window is
    /// dragged, a locked one stays.
    pub fn drag_requested(&self, id: &str) -> (actions: Vec<Action>)
        requires
            self.wf(),
        ensures
            action_views(actions@) == self@.actions_drag(id@),
    {
        let mut out: Vec<Action> = Vec::new();
        match self.registry.find(id) {
            Some(i) => {
                if !self.registry.get(i).locked() {
                    out.push(Action::DragWindow { id: owned(id) });
                }
            },
            None => {},
        }
        assert(action_views(out@) =~= self@.actions_drag(id@));
        out
    }

    /// Takes the connection of a settings process. One session is served at
    /// a time: `false` says that one is connected already and this one is to
    /// be turned away.
    pub fn client_connected_now(&mut self) -> (accepted: bool)
        requires
            old(self).wf(),
        ensures
            final(self).wf(),
            accepted == !old(self)@.client_connected,
            final(self)@ == (HostView { client_connected: true, ..old(self)@ }),
    {
        let accepted = !self.client_connected;
        self.client_connected = true;
        accepted
    }

    /// Takes the loss of the connection to the settings process.
    pub fn client_disconnected(&mut self)
        requires
            old(self).wf(),
        ensures
            final(self).wf(),
            final(self)@ == (HostView { client_connected: false, ..old(self)@ }),
    {
        self.client_connected = false;
    }

    /// Takes the user's wish to see the settings, from the tray or its menu:
    /// the settings process is started unless one is connected already.
    pub fn open_settings(&self) -> (actions: Vec<Action>)
        ensures
            action_views(actions@) == self@.actions_open_settings(),
    {
        let mut out: Vec<Action> = Vec::new();
        if !self.client_connected {
            out.push(Action::LaunchSettings);
        }
        assert(action_views(out@) =~= self@.actions_open_settings());
        out
    }

    /// Takes the user's wish to quit: a connected settings process is told
    /// to close itself, the settings are saved, and the host ends.
    pub fn quit(&mut self) -> (actions: Vec<Action>)
        requires
            old(self).wf(),
        ensures
            final(self).wf(),
            final(self)@ == old(self)@.saved(),
            action_views(actions@) == old(self)@.actions_quit(),
    {
        let mut out: Vec<Action> = Vec::new();
        self.dirty_since = None;
        assert(action_views(out@) =~= Seq::<ActionView>::empty());
        self.push_message(&mut out, IpcMessage::Shutdown);
        let ghost mid = action_views(out@);
        out.push(Action::Persist);
        out.push(Action::Exit);
        assert(action_views(out@) =~= mid.push(ActionView::Persist).push(ActionView::Exit));
        assert(action_views(out@) =~= old(self)@.actions_quit());
        out
    }

    /// Takes a new status of the updater: it is forwarded to the settings
    /// process, and an available version is announced to the user.
    pub fn update_status(&self, status: UpdateStatus) -> (actions: Vec<Action>)
        ensures
            action_views(actions@) == self@.actions_update_status(status@),
    {
        let mut out: Vec<Action> = Vec::new();
        let notice = match &status {
            UpdateStatus::Available(version) => Some(Action::NotifyUpdate { version: version.clone() }),
            _ => None,
        };
        assert(action_views(out@) =~= Seq::<ActionView>::empty());
        self.push_message(&mut out, IpcMessage::UpdateStatus(status));
        let ghost mid = action_views(out@);
        match notice {
            Some(action) => {
                out.push(action);
                assert(action_views(out@) =~= mid.push(action@));
            },
            None => {},
        }
        assert(action_views(out@) =~= self@.actions_update_status(status@));
        out
    }

    /// The steady tick of the host: every widget gets its debounce tick, the
    /// scheduled refresh runs when it is due, the settings are saved when
    /// the save timer has run out, and the updater is asked when its check
    /// is due.
    pub fn tick(&mut self, now: u64) -> (actions: Vec<Action>)
        requires
            old(self).wf(),
        ensures
            final(self).wf(),
            final(self)@ == old(self)@.after_tick(now),
            action_views(actions@) == old(self)@.actions_tick(now),
    {
        let mut out: Vec<Action> = Vec::new();
        let refresh_due = now >= self.next_refresh;
        let save_due = match self.dirty_since {
            Some(t) => now >= t && now - t >= SAVE_MS,
            None => false,
        };
        let check_due = now >= self.next_update_check;
        let ghost start = self@;
        let ghost before = self.registry@;
        let n = self.registry.len();
        let mut i: usize = 0;
        assert(before.take(0) =~= Seq::<WidgetView>::empty());
        assert(action_views(out@) =~= tick_fetches(before.take(0), now, refresh_due));
        while i < n
            invariant
                i <= n,
                n == before.len(),
                self.wf(),
                self@ == (HostView { widgets: self.registry@, ..start }),
                start == old(self)@,
                before == start.widgets,
                refresh_due == start.refresh_due(now),
                save_due == start.save_due(now),
                check_due == start.check_due(now),
                self.registry@.len() == n,
                forall|k: int| 0 <= k < i ==> self.registry@[k] == before[k].after_tick(now),
                forall|k: int| i <= k < n ==> self.registry@[k] == before[k],
                action_views(out@) == tick_fetches(before.take(i as int), now, refresh_due),
            decreases n - i,
        {
            let ghost done = action_views(out@);
            proof {
                let next = before.take(i + 1);
                assert(next.drop_last() =~= before.take(i as int));
                assert(next.last() == before[i as int]);
            }
            let id = owned(self.registry.get(i).id());
            match self.registry.tick_at(i, now, refresh_due) {
                Some(request) => {
                    out.push(
                        Action::StartFetch {
                            id,
                            symbol: request.symbol,
                            timeframe: request.timeframe,
                        },
                    );
                    assert(action_views(out@) =~= done.push(
                        ActionView::StartFetch {
                            id: before[i as int].id,
                            symbol: before[i as int].symbol,
                            timeframe: request.timeframe,
                        },
                    ));
                },
                None => {},
            }
            i += 1;
        }
        assert(before.take(n as int) =~= before);
        assert(self.registry@ =~= ticked(before, now));
        let ghost fetched = action_views(out@);
        if refresh_due {
            self.next_refresh = interval_deadline(now, self.update_interval);
        }
        if save_due {
            self.dirty_since = None;
            out.push(Action::Persist);
            assert(action_views(out@) =~= fetched.push(ActionView::Persist));
        }
        let ghost saved = action_views(out@);
        if check_due {
            self.next_update_check = deadline_after(now, UPDATE_CHECK_MS);
            out.push(Action::CheckUpdate { use_prereleases: self.use_prereleases });
            assert(action_views(out@) =~= saved.push(
                ActionView::CheckUpdate { use_prereleases: self.use_prereleases },
            ));
        }
        assert(action_views(out@) =~= old(self)@.actions_tick(now));
        out
    }

    /// The moment the host is to wake next: when the next of its timers
    /// runs out, and within the poll period at the latest.
    pub fn next_wake(&self, now: u64) -> (r: u64)
        ensures
            r == self@.next_wake(now),
            now <= r <= now + POLL_MS,
    {
        let mut timer = if self.next_refresh <= self.next_update_check {
            self.next_refresh
        } else {
            self.next_update_check
        };
        match self.dirty_since {
            Some(t) => {
                let save = deadline_after(t, SAVE_MS);
                if save < timer {
                    timer = save;
                }
            },
            None => {},
        }
        let poll = deadline_after(now, POLL_MS);
        if timer <= now {
            now
        } else if timer <= poll {
            timer
        } else {
            poll
        }
    }

    /// The series on display in the window of a widget, if there is one.
    pub fn current_series(&self, id: &str) -> (r: Option<&QuoteSeries>)
        requires
            self.wf(),
        ensures
            match r {
                Some(series) => crate::registry::has_id(self@.widgets, id@)
                    && self@.widgets[crate::registry::place_of(self@.widgets, id@)].cache.shown()
                    == Some(series@) && series@.wf(),
                None => !crate::registry::has_id(self@.widgets, id@)
                    || self@.widgets[crate::registry::place_of(
                    self@.widgets,
                    id@,
                )].cache.shown() is None,
            },
    {
        match self.registry.find(id) {
            Some(i) => self.registry.get(i).current_series(),
            None => None,
        }
    }

    /// Rebuilds the host at `now` from the stored settings: every usable
    /// persisted widget comes back as an active widget, its window is
    /// opened and its first fetch started. The first scheduled refresh is
    /// due one interval after the start, the first check for an update at
    /// once.
    pub fn start(config: &AppConfig, now: u64) -> (r: (Orchestrator, Vec<Action>))
        ensures
            r.0.wf(),
            r.0@ == HostView::started(config@, now),
            action_views(r.1@) == opening_actions(r.0@.widgets),
    {
        let minutes = if config.update_interval == 0 {
            DEFAULT_INTERVAL_MIN
        } else {
            config.update_interval
        };
        let mut registry = WidgetRegistry::new();
        let mut out: Vec<Action> = Vec::new();
        let ghost entries = widget_config_views(config.widgets@);
        let mut i: usize = 0;
        assert(entries.take(0) =~= Seq::empty());
        assert(action_views(out@) =~= opening_actions(registry@));
        while i < config.widgets.len()
            invariant
                i <= config.widgets.len(),
                entries == widget_config_views(config.widgets@),
                registry.wf(),
                registry@ == restored_widgets(entries.take(i as int)),
                action_views(out@) == opening_actions(registry@),
            decreases config.widgets.len() - i,
        {
            let entry = &config.widgets[i];
            let ghost before = registry@;
            let ghost done = action_views(out@);
            proof {
                let next = entries.take(i + 1);
                assert(next.drop_last() =~= entries.take(i as int));
                assert(next.last() == entry@);
            }
            let timeframe = match Timeframe::from_code(entry.timeframe.as_str()) {
                Some(tf) => tf,
                None => Timeframe::OneMonth,
            };
            let open = Action::OpenWindow {
                id: entry.id.clone(),
                symbol: entry.symbol.clone(),
                locked: entry.locked,
                geometry: entry.geometry,
            };
            let fetch = Action::StartFetch {
                id: entry.id.clone(),
                symbol: entry.symbol.clone(),
                timeframe,
            };
            let added = registry.insert_restored(
                entry.id.clone(),
                entry.symbol.clone(),
                timeframe,
                entry.locked,
                entry.geometry,
            );
            if added {
                out.push(open);
                out.push(fetch);
                proof {
                    let w = restored_widget(entry@);
                    assert(registry@ == before.push(w));
                    assert(registry@.drop_last() =~= before);
                    assert(registry@.last() == w);
                    assert(action_views(out@) =~= done.push(open@).push(fetch@));
                }
            }
            i += 1;
        }
        assert(entries.take(config.widgets.len() as int) =~= entries);
        let host = Orchestrator {
            registry,
            language: config.language.clone(),
            update_interval: minutes,
            auto_start: config.auto_start,
            use_prereleases: config.use_prereleases,
            client_connected: false,
            dirty_since: None,
            next_refresh: interval_deadline(now, minutes),
            next_update_check: now,
        };
        (host, out)
    }

    /// What is persisted of the host's state: the active widgets and the
    /// global settings. A pending widget is not among them.
    pub fn config_snapshot(&self) -> (r: AppConfig)
        requires
            self.wf(),
        ensures
            r@ == self@.persisted(),
    {
        let mut widgets: Vec<WidgetConfig> = Vec::new();
        let ghost all = self.registry@;
        let n = self.registry.len();
        let mut i: usize = 0;
        assert(all.take(0) =~= Seq::<WidgetView>::empty());
        assert(widget_config_views(widgets@) =~= configs_of(all.take(0)));
        while i < n
            invariant
                i <= n,
                n == all.len(),
                self.wf(),
                all == self.registry@,
                widget_config_views(widgets@) == configs_of(all.take(i as int)),
            decreases n - i,
        {
            let ghost done = widget_config_views(widgets@);
            proof {
                let next = all.take(i + 1);
                assert(next.drop_last() =~= all.take(i as int));
                assert(next.last() == all[i as int]);
            }
            let widget = self.registry.get(i);
            if widget.state() == WidgetState::Active {
                let entry = WidgetConfig {
                    id: owned(widget.id()),
                    symbol: owned(widget.symbol()),
                    timeframe: owned(widget.timeframe().as_str()),
                    locked: widget.locked(),
                    geometry: widget.geometry(),
                };
                widgets.push(entry);
                assert(widget_config_views(widgets@) =~= done.push(entry@));
            }
            i += 1;
        }
        assert(all.take(n as int) =~= all);
        AppConfig {
            widgets,
            language: self.language.clone(),
            update_interval: self.update_interval,
            auto_start: self.auto_start,
            use_prereleases: self.use_prereleases,
        }
    }

    /// Takes a message of the settings process. A query is answered with the
    /// current state; a mutation changes the state and is followed by a push
    /// of what it changed; a message that only the host may send is ignored.
    pub fn handle_message(&mut self, message: IpcMessage, now: u64) -> (actions: Vec<Action>)
        requires
            old(self).wf(),
        ensures
            final(self).wf(),
            exists|fresh: Seq<char>|
                final(self)@ == #[trigger] old(self)@.after_message(message@, now, fresh)
                    && action_views(actions@) == old(self)@.actions_message(message@, now, fresh),
    {
        let ghost any = Seq::<char>::empty();
        let ghost before = self@;
        let ghost m = message@;
        match message {
            IpcMessage::GetCharts => {
                let mut out: Vec<Action> = Vec::new();
                assert(action_views(out@) =~= Seq::<ActionView>::empty());
                self.push_charts(&mut out);
                assert(action_views(out@) =~= before.actions_message(m, now, any));
                assert(self@ == before.after_message(m, now, any));
                out
            },
            IpcMessage::GetConfig => {
                let mut out: Vec<Action> = Vec::new();
                assert(action_views(out@) =~= Seq::<ActionView>::empty());
                self.push_config(&mut out);
                assert(action_views(out@) =~= before.actions_message(m, now, any));
                assert(self@ == before.after_message(m, now, any));
                out
            },
            IpcMessage::AddChart(raw) => {
                let out = self.add_widget(raw.as_str());
                proof {
                    if raw@.len() == 0 {
                        assert(action_views(out@) =~= before.actions_message(m, now, any));
                        assert(self@ == before.after_message(m, now, any));
                    } else {
                        let fresh = choose|fresh: Seq<char>|
                            self@ == before.after_add(fresh, uppercase_of(raw@)) && action_views(
                                out@,
                            ) == #[trigger] before.actions_add(fresh, uppercase_of(raw@));
                        assert(self@ == before.after_message(m, now, fresh));
                        assert(action_views(out@) == before.actions_message(m, now, fresh));
                    }
                }
                out
            },
            IpcMessage::DeleteChart(id) => {
                let out = self.remove_widget(id.as_str());
                assert(self@ == before.after_message(m, now, any));
                assert(action_views(out@) == before.actions_message(m, now, any));
                out
            },
            IpcMessage::ToggleChartLock(id, locked) => {
                let out = self.toggle_lock(id.as_str(), locked, now);
                assert(self@ == before.after_message(m, now, any));
                assert(action_views(out@) == before.actions_message(m, now, any));
                out
            },
            IpcMessage::SetChartTimeframe(id, code) => {
                let out = self.set_timeframe(id.as_str(), code.as_str(), now);
                assert(self@ == before.after_message(m, now, any));
                assert(action_views(out@) == before.actions_message(m, now, any));
                out
            },
            IpcMessage::SetLanguage(code) => {
                let out = self.set_language(code);
                assert(self@ == before.after_message(m, now, any));
                assert(action_views(out@) == before.actions_message(m, now, any));
                out
            },
            IpcMessage::SetUpdateInterval(minutes) => {
                let out = self.set_update_interval(minutes, now);
                assert(self@ == before.after_message(m, now, any));
                assert(action_views(out@) == before.actions_message(m, now, any));
                out
            },
            IpcMessage::SetAutoStart(enabled) => {
                let out = self.set_auto_start(enabled);
                assert(self@ == before.after_message(m, now, any));
                assert(action_views(out@) == before.actions_message(m, now, any));
                out
            },
            IpcMessage::SetUsePrereleases(enabled) => {
                let out = self.set_use_prereleases(enabled);
                assert(self@ == before.after_message(m, now, any));
                assert(action_views(out@) == before.actions_message(m, now, any));
                out
            },
            IpcMessage::CheckForUpdates => {
                let mut out: Vec<Action> = Vec::new();
                out.push(Action::CheckUpdate { use_prereleases: self.use_prereleases });
                assert(action_views(out@) =~= before.actions_message(m, now, any));
                assert(self@ == before.after_message(m, now, any));
                out
            },
            IpcMessage::PerformUpdate => {
                let mut out: Vec<Action> = Vec::new();
                out.push(Action::ApplyUpdate { use_prereleases: self.use_prereleases });
                assert(action_views(out@) =~= before.actions_message(m, now, any));
                assert(self@ == before.after_message(m, now, any));
                out
            },
            IpcMessage::Restart => {
                let mut out: Vec<Action> = Vec::new();
                self.dirty_since = None;
                out.push(Action::Persist);
                out.push(Action::Restart);
                assert(action_views(out@) =~= before.actions_message(m, now, any));
                assert(self@ == before.after_message(m, now, any));
                out
            },
            _ => {
                let out: Vec<Action> = Vec::new();
                assert(action_views(out@) =~= before.actions_message(m, now, any));
                assert(self@ == before.after_message(m, now, any));
                out
            },
        }
    }
}

} // verus!
