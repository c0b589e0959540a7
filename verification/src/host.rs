//! The state of the widget host and what each event does to it, stated over
//! plain values. The orchestrator is proved against these statements.

use vstd::prelude::*;
use crate::cache::age;
use crate::config::{AppConfigView, WidgetConfigView, DEFAULT_INTERVAL_MIN};
use crate::ipc::{ChartView, ConfigView, MessageView, StatusView};
use crate::language::{error_text_of, AppError};
use crate::registry::{charts_of, has_id, place_of, Geometry, WidgetState, WidgetView};
use crate::series::SeriesView;
use crate::settings::language_of_code;
use crate::text::uppercase_of;
use crate::timeframe::{parse_timeframe, Timeframe};

verus! {

/// How long the registry may stay unsaved after a change, in milliseconds.
pub const SAVE_MS: u64 = 500;

/// Milliseconds between two checks for an update.
pub const UPDATE_CHECK_MS: u64 = 3_600_000;

/// The longest the host sleeps, in milliseconds, so that debounce ticks and
/// the transport are served.
pub const POLL_MS: u64 = 100;

/// Milliseconds in a minute.
pub const MINUTE_MS: u64 = 60_000;

/// Something the host process is asked to do.
pub enum ActionView {
    /// Open the window of a widget.
    OpenWindow { id: Seq<char>, symbol: Seq<char>, locked: bool, geometry: Option<Geometry> },
    /// Close the window of a widget.
    CloseWindow { id: Seq<char> },
    /// Let the user drag the window of a widget.
    DragWindow { id: Seq<char> },
    /// Fetch the series of a timeframe for a widget in the background.
    StartFetch { id: Seq<char>, symbol: Seq<char>, timeframe: Timeframe },
    /// Show the series cached for a timeframe in the window of a widget.
    ShowSeries { id: Seq<char>, timeframe: Timeframe },
    /// Lock or unlock the window of a widget.
    SetLocked { id: Seq<char>, locked: bool },
    /// Show a passing error in the window of a widget.
    ShowError { id: Seq<char>, text: Seq<char> },
    /// Send a message to the settings process.
    Send(MessageView),
    /// Write the settings to the store now.
    Persist,
    /// Register or unregister the start with the system.
    SetAutostart(bool),
    /// Ask the updater whether there is an update.
    CheckUpdate { use_prereleases: bool },
    /// Ask the updater to install the update.
    ApplyUpdate { use_prereleases: bool },
    /// Tell the user that a version is available.
    NotifyUpdate { version: Seq<char> },
    /// Start the host process anew.
    Restart,
    /// Start the settings process.
    LaunchSettings,
    /// End the host process.
    Exit,
}

/// The moment `delay` milliseconds after `now`, or the end of time.
pub open spec fn deadline(now: u64, delay: int) -> u64 {
    if now + delay <= u64::MAX {
        (now + delay) as u64
    } else {
        u64::MAX
    }
}

/// The state of the host.
pub struct HostView {
    pub widgets: Seq<WidgetView>,
    pub language: Seq<char>,
    /// Minutes between two scheduled refreshes.
    pub update_interval: u64,
    pub auto_start: bool,
    pub use_prereleases: bool,
    /// Whether a settings process is connected.
    pub client_connected: bool,
    /// Since when the registry holds changes that are not saved.
    pub dirty_since: Option<u64>,
    /// When the next scheduled refresh is due.
    pub next_refresh: u64,
    /// When the next check for an update is due.
    pub next_update_check: u64,
}

/// The widget that a persisted entry stands for, if the entry is usable.
pub open spec fn restored_widget(entry: WidgetConfigView) -> WidgetView {
    WidgetView::restored(
        entry.id,
        entry.symbol,
        match parse_timeframe(entry.timeframe) {
            Some(tf) => tf,
            None => Timeframe::OneMonth,
        },
        entry.locked,
        entry.geometry,
    )
}

/// The widgets rebuilt from the persisted entries: each entry in turn, but
/// for those without a symbol or with an id that came before.
pub open spec fn restored_widgets(entries: Seq<WidgetConfigView>) -> Seq<WidgetView>
    decreases entries.len(),
{
    if entries.len() == 0 {
        Seq::empty()
    } else {
        let before = restored_widgets(entries.drop_last());
        let entry = entries.last();
        if entry.symbol.len() > 0 && !has_id(before, entry.id) {
            before.push(restored_widget(entry))
        } else {
            before
        }
    }
}

/// The actions that open the windows of a list of widgets and start their
/// first fetches.
pub open spec fn opening_actions(widgets: Seq<WidgetView>) -> Seq<ActionView>
    decreases widgets.len(),
{
    if widgets.len() == 0 {
        Seq::empty()
    } else {
        let w = widgets.last();
        opening_actions(widgets.drop_last()).push(
            ActionView::OpenWindow {
                id: w.id,
                symbol: w.symbol,
                locked: w.locked,
                geometry: w.geometry,
            },
        ).push(ActionView::StartFetch { id: w.id, symbol: w.symbol, timeframe: w.cache.active })
    }
}

/// The persisted entry of a widget.
pub open spec fn config_of(w: WidgetView) -> WidgetConfigView {
    WidgetConfigView {
        id: w.id,
        symbol: w.symbol,
        timeframe: w.timeframe().code(),
        locked: w.locked,
        geometry: w.geometry,
    }
}

/// The persisted entries of a list of widgets: those of the active ones.
pub open spec fn configs_of(widgets: Seq<WidgetView>) -> Seq<WidgetConfigView>
    decreases widgets.len(),
{
    if widgets.len() == 0 {
        Seq::empty()
    } else if widgets.last().state == WidgetState::Active {
        configs_of(widgets.drop_last()).push(config_of(widgets.last()))
    } else {
        configs_of(widgets.drop_last())
    }
}

/// Every widget after a tick at `now`.
pub open spec fn ticked(widgets: Seq<WidgetView>, now: u64) -> Seq<WidgetView> {
    Seq::new(widgets.len(), |i: int| widgets[i].after_tick(now))
}

/// The fetches that a tick at `now` starts, widget by widget.
pub open spec fn tick_fetches(widgets: Seq<WidgetView>, now: u64, refresh_due: bool) -> Seq<
    ActionView,
>
    decreases widgets.len(),
{
    if widgets.len() == 0 {
        Seq::empty()
    } else {
        let w = widgets.last();
        let before = tick_fetches(widgets.drop_last(), now, refresh_due);
        match w.tick_fetch(now, refresh_due) {
            Some(timeframe) => before.push(
                ActionView::StartFetch { id: w.id, symbol: w.symbol, timeframe },
            ),
            None => before,
        }
    }
}

/// The smaller of two moments.
pub open spec fn earlier(a: u64, b: u64) -> u64 {
    if a <= b {
        a
    } else {
        b
    }
}

impl HostView {
    /// The state of a host that starts at `now` with the stored settings.
    pub open spec fn started(config: AppConfigView, now: u64) -> HostView {
        let minutes = if config.update_interval == 0 {
            DEFAULT_INTERVAL_MIN
        } else {
            config.update_interval
        };
        HostView {
            widgets: restored_widgets(config.widgets),
            language: config.language,
            update_interval: minutes,
            auto_start: config.auto_start,
            use_prereleases: config.use_prereleases,
            client_connected: false,
            dirty_since: None,
            next_refresh: deadline(now, minutes * MINUTE_MS),
            next_update_check: now,
        }
    }

    /// The global settings as the settings process sees them.
    pub open spec fn config(self) -> ConfigView {
        ConfigView {
            language: self.language,
            update_interval: self.update_interval,
            auto_start: self.auto_start,
            use_prereleases: self.use_prereleases,
        }
    }

    /// What is persisted of the state.
    pub open spec fn persisted(self) -> AppConfigView {
        AppConfigView {
            widgets: configs_of(self.widgets),
            language: self.language,
            update_interval: self.update_interval,
            auto_start: self.auto_start,
            use_prereleases: self.use_prereleases,
        }
    }

    /// The widget list as the settings process sees it.
    pub open spec fn snapshot(self) -> Seq<ChartView> {
        charts_of(self.widgets)
    }

    /// The action that sends `message`, while a settings process is
    /// connected; nothing otherwise.
    pub open spec fn push(self, message: MessageView) -> Seq<ActionView> {
        if self.client_connected {
            seq![ActionView::Send(message)]
        } else {
            Seq::empty()
        }
    }

    /// The push of the current widget list.
    pub open spec fn push_charts(self) -> Seq<ActionView> {
        self.push(MessageView::Charts(self.snapshot()))
    }

    /// The push of the current global settings.
    pub open spec fn push_config(self) -> Seq<ActionView> {
        self.push(MessageView::Config(self.config()))
    }

    /// The state with a change at `now` that waits for the save timer.
    pub open spec fn dirtied(self, now: u64) -> HostView {
        HostView {
            dirty_since: match self.dirty_since {
                Some(t) => Some(t),
                None => Some(now),
            },
            ..self
        }
    }

    /// The state with everything saved.
    pub open spec fn saved(self) -> HostView {
        HostView { dirty_since: None, ..self }
    }

    /// The state with the widget at `place` replaced.
    pub open spec fn with_widget(self, place: int, widget: WidgetView) -> HostView {
        HostView { widgets: self.widgets.update(place, widget), ..self }
    }

    /// A widget for `symbol` can be added under `id`.
    pub open spec fn can_add(self, id: Seq<char>, symbol: Seq<char>) -> bool {
        symbol.len() > 0 && !has_id(self.widgets, id)
    }

    /// The state after an add request.
    pub open spec fn after_add(self, id: Seq<char>, symbol: Seq<char>) -> HostView {
        if self.can_add(id, symbol) {
            HostView { widgets: self.widgets.push(WidgetView::pending(id, symbol)), ..self }
        } else {
            self
        }
    }

    /// What an add request asks for: the window and the first fetch, and no
    /// word to the settings process.
    pub open spec fn actions_add(self, id: Seq<char>, symbol: Seq<char>) -> Seq<ActionView> {
        if self.can_add(id, symbol) {
            seq![
                ActionView::OpenWindow { id, symbol, locked: true, geometry: None },
                ActionView::StartFetch { id, symbol, timeframe: Timeframe::OneMonth },
            ]
        } else {
            Seq::empty()
        }
    }

    /// The state after a delete request or the closing of a window.
    pub open spec fn after_remove(self, id: Seq<char>) -> HostView {
        if has_id(self.widgets, id) {
            HostView {
                widgets: self.widgets.remove(place_of(self.widgets, id)),
                dirty_since: None,
                ..self
            }
        } else {
            self
        }
    }

    /// What a delete request or the closing of a window asks for.
    pub open spec fn actions_remove(self, id: Seq<char>) -> Seq<ActionView> {
        if has_id(self.widgets, id) {
            seq![ActionView::CloseWindow { id }] + self.after_remove(id).push_charts()
                + seq![ActionView::Persist]
        } else {
            Seq::empty()
        }
    }

    /// The state after a lock toggle at `now`.
    pub open spec fn after_toggle_lock(self, id: Seq<char>, locked: bool, now: u64) -> HostView {
        if has_id(self.widgets, id) {
            let place = place_of(self.widgets, id);
            self.with_widget(place, WidgetView { locked, ..self.widgets[place] }).dirtied(now)
        } else {
            self
        }
    }

    /// What a lock toggle asks for.
    pub open spec fn actions_toggle_lock(self, id: Seq<char>, locked: bool, now: u64) -> Seq<
        ActionView,
    > {
        if has_id(self.widgets, id) {
            seq![ActionView::SetLocked { id, locked }] + self.after_toggle_lock(
                id,
                locked,
                now,
            ).push_charts()
        } else {
            Seq::empty()
        }
    }

    /// A timeframe change names a widget and a timeframe that exist.
    pub open spec fn can_set_timeframe(self, id: Seq<char>, code: Seq<char>) -> bool {
        has_id(self.widgets, id) && parse_timeframe(code) is Some
    }

    /// The state after a timeframe change at `now`.
    pub open spec fn after_set_timeframe(self, id: Seq<char>, code: Seq<char>, now: u64) -> HostView {
        if self.can_set_timeframe(id, code) {
            let place = place_of(self.widgets, id);
            let w = self.widgets[place];
            self.with_widget(
                place,
                WidgetView {
                    cache: w.cache.after_set_timeframe(parse_timeframe(code)->0, now),
                    ..w
                },
            ).saved()
        } else {
            self
        }
    }

    /// What a timeframe change asks for.
    pub open spec fn actions_set_timeframe(self, id: Seq<char>, code: Seq<char>, now: u64) -> Seq<
        ActionView,
    > {
        if self.can_set_timeframe(id, code) {
            let timeframe = parse_timeframe(code)->0;
            let w = self.widgets[place_of(self.widgets, id)];
            let shown = if w.cache.is_fresh(timeframe, now) {
                seq![ActionView::ShowSeries { id, timeframe }]
            } else {
                Seq::empty()
            };
            shown + self.after_set_timeframe(id, code, now).push_charts() + seq![
                ActionView::Persist,
            ]
        } else {
            Seq::empty()
        }
    }

    /// The state after a change of the language.
    pub open spec fn after_set_language(self, code: Seq<char>) -> HostView {
        HostView { language: code, ..self }.saved()
    }

    /// The state after a change of the refresh interval at `now`: the next
    /// refresh is due one new interval after the change.
    pub open spec fn after_set_interval(self, minutes: u64, now: u64) -> HostView {
        if minutes > 0 {
            HostView {
                update_interval: minutes,
                next_refresh: deadline(now, minutes * MINUTE_MS),
                ..self
            }.saved()
        } else {
            self
        }
    }

    /// The state after a change of the start with the system.
    pub open spec fn after_set_auto_start(self, enabled: bool) -> HostView {
        HostView { auto_start: enabled, ..self }.saved()
    }

    /// The state after a change of the update channel.
    pub open spec fn after_set_use_prereleases(self, enabled: bool) -> HostView {
        HostView { use_prereleases: enabled, ..self }.saved()
    }

    /// What a change of a global setting asks for: the new settings to the
    /// settings process, and a save.
    pub open spec fn actions_settings_changed(self) -> Seq<ActionView> {
        self.push_config() + seq![ActionView::Persist]
    }

    /// The state after a fetch for the widget `id` completed. The result of
    /// a fetch for a widget that is gone is dropped.
    pub open spec fn after_fetch_completed(
        self,
        id: Seq<char>,
        timeframe: Timeframe,
        series: SeriesView,
    ) -> HostView {
        if has_id(self.widgets, id) {
            let place = place_of(self.widgets, id);
            let w = self.widgets[place];
            let stored = self.with_widget(
                place,
                WidgetView {
                    state: WidgetState::Active,
                    cache: w.cache.after_complete(timeframe, series),
                    ..w
                },
            );
            if w.state == WidgetState::Pending {
                stored.saved()
            } else {
                stored
            }
        } else {
            self
        }
    }

    /// What a completed fetch asks for: the series is shown when it is for
    /// the timeframe on display, and a widget that became active is told to
    /// the settings process and saved.
    pub open spec fn actions_fetch_completed(
        self,
        id: Seq<char>,
        timeframe: Timeframe,
        series: SeriesView,
    ) -> Seq<ActionView> {
        if has_id(self.widgets, id) {
            let w = self.widgets[place_of(self.widgets, id)];
            let shown = if w.cache.active == timeframe {
                seq![ActionView::ShowSeries { id, timeframe }]
            } else {
                Seq::empty()
            };
            let promoted = if w.state == WidgetState::Pending {
                self.after_fetch_completed(id, timeframe, series).push_charts() + seq![
                    ActionView::Persist,
                ]
            } else {
                Seq::empty()
            };
            shown + promoted
        } else {
            Seq::empty()
        }
    }

    /// The state after a fetch for the widget `id` failed: a pending widget
    /// is discarded, an active one is kept as it is.
    pub open spec fn after_fetch_failed(self, id: Seq<char>) -> HostView {
        if has_id(self.widgets, id) && self.widgets[place_of(self.widgets, id)].state
            == WidgetState::Pending {
            HostView { widgets: self.widgets.remove(place_of(self.widgets, id)), ..self }
        } else {
            self
        }
    }

    /// What a failed fetch asks for.
    pub open spec fn actions_fetch_failed(self, id: Seq<char>, error: AppError) -> Seq<ActionView> {
        if has_id(self.widgets, id) {
            let text = error_text_of(language_of_code(self.language), error);
            let local = if self.widgets[place_of(self.widgets, id)].state == WidgetState::Pending {
                ActionView::CloseWindow { id }
            } else {
                ActionView::ShowError { id, text }
            };
            seq![local] + self.push(MessageView::Error(text))
        } else {
            Seq::empty()
        }
    }

    /// The state after the window of the widget `id` was moved or resized.
    pub open spec fn after_window_moved(self, id: Seq<char>, geometry: Geometry, now: u64) -> HostView {
        if has_id(self.widgets, id) {
            let place = place_of(self.widgets, id);
            self.with_widget(
                place,
                WidgetView { geometry: Some(geometry), ..self.widgets[place] },
            ).dirtied(now)
        } else {
            self
        }
    }

    /// What a press on the window of the widget `id` asks for: an unlocked
    /// window is dragged.
    pub open spec fn actions_drag(self, id: Seq<char>) -> Seq<ActionView> {
        if has_id(self.widgets, id) && !self.widgets[place_of(self.widgets, id)].locked {
            seq![ActionView::DragWindow { id }]
        } else {
            Seq::empty()
        }
    }

    /// What the user's wish to see the settings asks for: the settings
    /// process is started unless one is connected already.
    pub open spec fn actions_open_settings(self) -> Seq<ActionView> {
        if self.client_connected {
            Seq::empty()
        } else {
            seq![ActionView::LaunchSettings]
        }
    }

    /// What the user's wish to quit asks for: the settings process is told
    /// to close, the settings are saved, and the host ends.
    pub open spec fn actions_quit(self) -> Seq<ActionView> {
        self.push(MessageView::Shutdown) + seq![ActionView::Persist, ActionView::Exit]
    }

    /// What a new status of the updater asks for.
    pub open spec fn actions_update_status(self, status: StatusView) -> Seq<ActionView> {
        self.push(MessageView::UpdateStatus(status)) + match status {
            StatusView::Available(version) => seq![ActionView::NotifyUpdate { version }],
            _ => Seq::empty(),
        }
    }

    /// The scheduled refresh is due at `now`.
    pub open spec fn refresh_due(self, now: u64) -> bool {
        now >= self.next_refresh
    }

    /// The save timer has run out at `now`.
    pub open spec fn save_due(self, now: u64) -> bool {
        self.dirty_since matches Some(t) && age(now, t) >= SAVE_MS
    }

    /// The check for an update is due at `now`.
    pub open spec fn check_due(self, now: u64) -> bool {
        now >= self.next_update_check
    }

    /// The state after a tick at `now`.
    pub open spec fn after_tick(self, now: u64) -> HostView {
        HostView {
            widgets: ticked(self.widgets, now),
            next_refresh: if self.refresh_due(now) {
                deadline(now, self.update_interval * MINUTE_MS)
            } else {
                self.next_refresh
            },
            dirty_since: if self.save_due(now) {
                None
            } else {
                self.dirty_since
            },
            next_update_check: if self.check_due(now) {
                deadline(now, UPDATE_CHECK_MS as int)
            } else {
                self.next_update_check
            },
            ..self
        }
    }

    /// What a tick at `now` asks for.
    pub open spec fn actions_tick(self, now: u64) -> Seq<ActionView> {
        tick_fetches(self.widgets, now, self.refresh_due(now)) + (if self.save_due(now) {
            seq![ActionView::Persist]
        } else {
            Seq::empty()
        }) + (if self.check_due(now) {
            seq![ActionView::CheckUpdate { use_prereleases: self.use_prereleases }]
        } else {
            Seq::empty()
        })
    }

    /// The next moment at which a timer runs out.
    pub open spec fn next_timer(self) -> u64 {
        let timers = earlier(self.next_refresh, self.next_update_check);
        match self.dirty_since {
            Some(t) => earlier(timers, deadline(t, SAVE_MS as int)),
            None => timers,
        }
    }

    /// The moment the host is to wake next after `now`: when the next timer
    /// runs out, but not later than one poll period from `now`, and not
    /// before `now`.
    pub open spec fn next_wake(self, now: u64) -> u64 {
        let timer = self.next_timer();
        let poll = deadline(now, POLL_MS as int);
        if timer <= now {
            now
        } else {
            earlier(timer, poll)
        }
    }

    /// The state after a message of the settings process at `now`, where
    /// `fresh` is the id that a new widget gets.
    pub open spec fn after_message(self, message: MessageView, now: u64, fresh: Seq<char>) -> HostView {
        match message {
            MessageView::AddChart(raw) => if raw.len() > 0 {
                self.after_add(fresh, uppercase_of(raw))
            } else {
                self
            },
            MessageView::DeleteChart(id) => self.after_remove(id),
            MessageView::ToggleChartLock(id, locked) => self.after_toggle_lock(id, locked, now),
            MessageView::SetChartTimeframe(id, code) => self.after_set_timeframe(id, code, now),
            MessageView::SetLanguage(code) => self.after_set_language(code),
            MessageView::SetUpdateInterval(minutes) => self.after_set_interval(minutes, now),
            MessageView::SetAutoStart(enabled) => self.after_set_auto_start(enabled),
            MessageView::SetUsePrereleases(enabled) => self.after_set_use_prereleases(enabled),
            MessageView::Restart => self.saved(),
            _ => self,
        }
    }

    /// What a message of the settings process at `now` asks for, where
    /// `fresh` is the id that a new widget gets. A message that only the
    /// host may send asks for nothing.
    pub open spec fn actions_message(self, message: MessageView, now: u64, fresh: Seq<char>) -> Seq<
        ActionView,
    > {
        match message {
            MessageView::GetCharts => self.push_charts(),
            MessageView::GetConfig => self.push_config(),
            MessageView::AddChart(raw) => if raw.len() > 0 {
                self.actions_add(fresh, uppercase_of(raw))
            } else {
                Seq::empty()
            },
            MessageView::DeleteChart(id) => self.actions_remove(id),
            MessageView::ToggleChartLock(id, locked) => self.actions_toggle_lock(id, locked, now),
            MessageView::SetChartTimeframe(id, code) => self.actions_set_timeframe(id, code, now),
            MessageView::SetLanguage(code) => self.after_set_language(
                code,
            ).actions_settings_changed(),
            MessageView::SetUpdateInterval(minutes) => if minutes > 0 {
                self.after_set_interval(minutes, now).actions_settings_changed()
            } else {
                Seq::empty()
            },
            MessageView::SetAutoStart(enabled) => seq![ActionView::SetAutostart(enabled)]
                + self.after_set_auto_start(enabled).actions_settings_changed(),
            MessageView::SetUsePrereleases(enabled) => self.after_set_use_prereleases(
                enabled,
            ).actions_settings_changed(),
            MessageView::CheckForUpdates => seq![
                ActionView::CheckUpdate { use_prereleases: self.use_prereleases },
            ],
            MessageView::PerformUpdate => seq![
                ActionView::ApplyUpdate { use_prereleases: self.use_prereleases },
            ],
            MessageView::Restart => seq![ActionView::Persist, ActionView::Restart],
            _ => Seq::empty(),
        }
    }
}

} // verus!
