use desktop_widget_rs::config::{AppConfig, WidgetConfig, DEFAULT_INTERVAL_MIN};
use desktop_widget_rs::host::{MINUTE_MS, POLL_MS, SAVE_MS, UPDATE_CHECK_MS};
use desktop_widget_rs::ipc::{IpcMessage, UpdateStatus};
use desktop_widget_rs::language::AppError;
use desktop_widget_rs::orchestrator::{Action, Orchestrator};
use desktop_widget_rs::registry::{Geometry, WidgetState};
use desktop_widget_rs::series::{QuotePoint, QuoteSeries};
use desktop_widget_rs::timeframe::Timeframe;

fn series(fetched_at: u64) -> QuoteSeries {
    let p = QuotePoint {
        timestamp: 1,
        open: 1.0f64.to_bits(),
        high: 2.0f64.to_bits(),
        low: 0.5f64.to_bits(),
        close: 1.5f64.to_bits(),
    };
    QuoteSeries::assemble(Timeframe::OneMonth, &vec![vec![p]], "USD".to_string(), fetched_at)
        .unwrap()
}

fn empty_config() -> AppConfig {
    AppConfig {
        widgets: vec![],
        language: "en".to_string(),
        update_interval: 30,
        auto_start: false,
        use_prereleases: false,
    }
}

fn empty_host(now: u64) -> Orchestrator {
    let (mut host, actions) = Orchestrator::start(&empty_config(), now);
    assert!(actions.is_empty());
    // the check for an update that is due at the start
    host.tick(now);
    host
}

fn host_with_client(now: u64) -> Orchestrator {
    let mut host = empty_host(now);
    assert!(host.client_connected_now());
    host
}

fn snapshot_sent(actions: &[Action]) -> Option<Vec<(String, String, String, bool)>> {
    actions.iter().find_map(|a| match a {
        Action::Send(IpcMessage::Charts(charts)) => Some(
            charts
                .iter()
                .map(|c| (c.id.clone(), c.symbol.clone(), c.timeframe.clone(), c.locked))
                .collect(),
        ),
        _ => None,
    })
}

fn persisted_symbols(host: &Orchestrator) -> Vec<String> {
    host.config_snapshot().widgets.iter().map(|w| w.symbol.clone()).collect()
}

#[test]
fn host_constants() {
    assert_eq!(SAVE_MS, 500);
    assert_eq!(MINUTE_MS, 60_000);
    assert_eq!(DEFAULT_INTERVAL_MIN, 30);
    assert!(POLL_MS < 1_000);
    assert!(UPDATE_CHECK_MS > 0);
}

#[test]
fn adding_opens_a_window_and_fetches_but_tells_nobody() {
    let mut host = host_with_client(0);
    let actions = host.add_widget_with("w1".to_string(), "AAPL".to_string());
    assert_eq!(actions.len(), 2);
    assert!(matches!(&actions[0],
        Action::OpenWindow { id, symbol, locked: true, geometry: None } if id == "w1" && symbol == "AAPL"));
    assert!(matches!(&actions[1],
        Action::StartFetch { id, symbol, timeframe: Timeframe::OneMonth } if id == "w1" && symbol == "AAPL"));
    assert_eq!(host.registry().len(), 1);
    assert_eq!(host.registry().get(0).state(), WidgetState::Pending);
    assert!(!host.registry().get(0).has_data());
    assert!(host.registry().snapshot().is_empty());
    assert!(persisted_symbols(&host).is_empty());
}

#[test]
fn a_failed_first_fetch_discards_the_widget() {
    let mut host = host_with_client(0);
    host.add_widget_with("w1".to_string(), "AAPL".to_string());
    let actions = host.fetch_failed("w1", &AppError::NoQuotesFound);
    assert_eq!(actions.len(), 2);
    assert!(matches!(&actions[0], Action::CloseWindow { id } if id == "w1"));
    assert!(matches!(&actions[1], Action::Send(IpcMessage::Error(t)) if t == "No quotes found"));
    assert_eq!(host.registry().len(), 0);
    assert!(snapshot_sent(&actions).is_none());

    let answer = host.handle_message(IpcMessage::GetCharts, 10);
    assert_eq!(snapshot_sent(&answer), Some(vec![]));
    assert!(persisted_symbols(&host).is_empty());
    let later = host.add_widget_with("w2".to_string(), "MSFT".to_string());
    assert!(snapshot_sent(&later).is_none());
    let done = host.fetch_completed("w2", Timeframe::OneMonth, series(20));
    let sent = snapshot_sent(&done).unwrap();
    assert_eq!(sent.len(), 1);
    assert_eq!(sent[0].1, "MSFT");
}

#[test]
fn a_first_success_makes_the_widget_visible() {
    let mut host = host_with_client(0);
    host.add_widget_with("w1".to_string(), "MSFT".to_string());
    let actions = host.fetch_completed("w1", Timeframe::OneMonth, series(100));
    assert_eq!(actions.len(), 3);
    assert!(matches!(&actions[0],
        Action::ShowSeries { id, timeframe: Timeframe::OneMonth } if id == "w1"));
    assert_eq!(
        snapshot_sent(&actions),
        Some(vec![("w1".to_string(), "MSFT".to_string(), "1M".to_string(), true)])
    );
    assert!(matches!(actions[2], Action::Persist));
    assert_eq!(host.registry().get(0).state(), WidgetState::Active);
    assert!(host.registry().get(0).has_data());
    assert_eq!(persisted_symbols(&host), vec!["MSFT".to_string()]);
    assert_eq!(host.current_series("w1").unwrap().fetched_at(), 100);
    assert!(host.current_series("nobody").is_none());
}

#[test]
fn an_unlocked_widget_stays_unlocked_over_a_reconnect() {
    let mut host = host_with_client(0);
    host.add_widget_with("w1".to_string(), "MSFT".to_string());
    host.fetch_completed("w1", Timeframe::OneMonth, series(100));

    let actions = host.handle_message(IpcMessage::ToggleChartLock("w1".to_string(), false), 200);
    assert!(matches!(&actions[0], Action::SetLocked { id, locked: false } if id == "w1"));
    assert_eq!(
        snapshot_sent(&actions),
        Some(vec![("w1".to_string(), "MSFT".to_string(), "1M".to_string(), false)])
    );
    assert!(!actions.iter().any(|a| matches!(a, Action::Persist)));
    assert!(host.is_dirty());

    host.client_disconnected();
    assert!(!host.client_connected());
    assert!(host.handle_message(IpcMessage::GetCharts, 250).is_empty());
    assert!(host.client_connected_now());
    let answer = host.handle_message(IpcMessage::GetCharts, 300);
    assert_eq!(answer.len(), 1);
    assert_eq!(
        snapshot_sent(&answer),
        Some(vec![("w1".to_string(), "MSFT".to_string(), "1M".to_string(), false)])
    );
}

#[test]
fn a_lock_toggle_is_saved_by_the_save_timer() {
    let mut host = host_with_client(0);
    host.add_widget_with("w1".to_string(), "MSFT".to_string());
    host.fetch_completed("w1", Timeframe::OneMonth, series(100));
    host.toggle_lock("w1", false, 1_000);
    host.toggle_lock("w1", true, 1_100);
    host.toggle_lock("w1", false, 1_200);
    assert!(host.tick(1_499).is_empty());
    assert!(host.is_dirty());
    let saved = host.tick(1_500);
    assert!(matches!(saved[..], [Action::Persist]));
    assert!(!host.is_dirty());
    assert!(host.tick(1_600).is_empty());
    assert!(!host.config_snapshot().widgets[0].locked);
}

#[test]
fn a_new_interval_counts_from_the_change() {
    let start = 1_000_000;
    let mut host = host_with_client(start);
    host.add_widget_with("w1".to_string(), "MSFT".to_string());
    host.fetch_completed("w1", Timeframe::OneMonth, series(start));
    assert_eq!(host.next_refresh(), start + 30 * MINUTE_MS);

    let change = start + 10 * MINUTE_MS;
    let actions = host.handle_message(IpcMessage::SetUpdateInterval(15), change);
    assert!(matches!(&actions[0], Action::Send(IpcMessage::Config(c)) if c.update_interval == 15));
    assert!(matches!(actions[1], Action::Persist));
    assert_eq!(host.next_refresh(), change + 15 * MINUTE_MS);
    assert_ne!(host.next_refresh(), start + 30 * MINUTE_MS);
    assert_ne!(host.next_refresh(), start + 15 * MINUTE_MS);

    host.tick(change + 15 * MINUTE_MS - 1);
    assert_eq!(host.next_refresh(), change + 15 * MINUTE_MS);
    host.tick(change + 15 * MINUTE_MS);
    assert_eq!(host.next_refresh(), change + 30 * MINUTE_MS);
}

#[test]
fn an_interval_of_zero_is_ignored() {
    let mut host = host_with_client(0);
    let before = host.next_refresh();
    assert!(host.set_update_interval(0, 50).is_empty());
    assert_eq!(host.next_refresh(), before);
    assert_eq!(host.config().update_interval, 30);
}

#[test]
fn a_scheduled_refresh_fetches_what_is_stale() {
    let mut host = host_with_client(0);
    host.add_widget_with("w1".to_string(), "MSFT".to_string());
    host.add_widget_with("w2".to_string(), "AAPL".to_string());
    host.fetch_completed("w1", Timeframe::OneMonth, series(0));
    host.fetch_completed("w2", Timeframe::OneMonth, series(29 * MINUTE_MS));
    let due = 30 * MINUTE_MS + 1;
    let actions = host.tick(due);
    let fetched: Vec<&Action> =
        actions.iter().filter(|a| matches!(a, Action::StartFetch { .. })).collect();
    assert_eq!(fetched.len(), 1);
    assert!(matches!(fetched[0],
        Action::StartFetch { id, symbol, timeframe: Timeframe::OneMonth } if id == "w1" && symbol == "MSFT"));
    assert_eq!(host.next_refresh(), due + 30 * MINUTE_MS);
}

#[test]
fn a_timeframe_change_is_debounced_by_the_tick() {
    let mut host = host_with_client(0);
    host.add_widget_with("w1".to_string(), "MSFT".to_string());
    host.fetch_completed("w1", Timeframe::OneMonth, series(0));
    for (i, code) in ["1D", "1W", "3M", "1Y", "6M"].iter().enumerate() {
        let now = 1_000 + 100 * i as u64;
        let actions =
            host.handle_message(IpcMessage::SetChartTimeframe("w1".to_string(), code.to_string()), now);
        assert!(!actions.iter().any(|a| matches!(a, Action::StartFetch { .. })));
        assert_eq!(snapshot_sent(&actions).unwrap()[0].2, *code);
        assert!(matches!(actions.last(), Some(Action::Persist)));
        assert!(host.tick(now + 50).is_empty());
    }
    assert!(host.tick(1_899).is_empty());
    let fired = host.tick(1_900);
    assert_eq!(fired.len(), 1);
    assert!(matches!(&fired[0],
        Action::StartFetch { id, symbol, timeframe: Timeframe::SixMonths } if id == "w1" && symbol == "MSFT"));
    assert!(host.tick(2_000).is_empty());
    assert_eq!(host.registry().get(0).timeframe_on_display(), Timeframe::SixMonths);
}

#[test]
fn a_cached_timeframe_is_shown_at_once() {
    let mut host = host_with_client(0);
    host.add_widget_with("w1".to_string(), "MSFT".to_string());
    host.fetch_completed("w1", Timeframe::OneMonth, series(0));
    host.fetch_completed("w1", Timeframe::OneDay, series(10));
    let actions = host.set_timeframe("w1", "1D", 1_000);
    assert!(matches!(&actions[0],
        Action::ShowSeries { id, timeframe: Timeframe::OneDay } if id == "w1"));
    assert_eq!(host.registry().get(0).timeframe_on_display(), Timeframe::OneDay);
    assert!(host.tick(2_000).is_empty());
}

#[test]
fn a_result_for_another_timeframe_is_stored_but_not_shown() {
    let mut host = host_with_client(0);
    host.add_widget_with("w1".to_string(), "MSFT".to_string());
    host.fetch_completed("w1", Timeframe::OneMonth, series(0));
    let actions = host.fetch_completed("w1", Timeframe::OneWeek, series(10));
    assert!(actions.is_empty());
    assert_eq!(host.current_series("w1").unwrap().fetched_at(), 0);
}

#[test]
fn unknown_ids_and_labels_are_ignored() {
    let mut host = host_with_client(0);
    host.add_widget_with("w1".to_string(), "MSFT".to_string());
    host.fetch_completed("w1", Timeframe::OneMonth, series(0));
    assert!(host.remove_widget("nobody").is_empty());
    assert!(host.toggle_lock("nobody", false, 1).is_empty());
    assert!(host.set_timeframe("nobody", "1D", 1).is_empty());
    assert!(host.set_timeframe("w1", "2D", 1).is_empty());
    assert!(host.fetch_completed("nobody", Timeframe::OneDay, series(1)).is_empty());
    assert!(host.fetch_failed("nobody", &AppError::NoQuotesFound).is_empty());
    assert!(host.drag_requested("nobody").is_empty());
    host.window_moved("nobody", Geometry { x: 0, y: 0, width: 1, height: 1 }, 5);
    assert!(!host.is_dirty());
    assert_eq!(host.registry().len(), 1);
    assert_eq!(host.registry().get(0).timeframe(), Timeframe::OneMonth);
}

#[test]
fn an_id_is_given_once_and_a_symbol_is_needed() {
    let mut host = host_with_client(0);
    assert_eq!(host.add_widget_with("w1".to_string(), "MSFT".to_string()).len(), 2);
    assert!(host.add_widget_with("w1".to_string(), "AAPL".to_string()).is_empty());
    assert!(host.add_widget_with("w2".to_string(), String::new()).is_empty());
    assert_eq!(host.registry().len(), 1);
    assert_eq!(host.registry().get(0).symbol(), "MSFT");
}

#[test]
fn a_typed_symbol_is_put_in_upper_case_under_a_new_id() {
    let mut host = host_with_client(0);
    let a = host.handle_message(IpcMessage::AddChart("msft".to_string()), 0);
    let b = host.add_widget("msft");
    assert!(host.add_widget("").is_empty());
    assert_eq!(host.registry().len(), 2);
    assert_eq!(host.registry().get(0).symbol(), "MSFT");
    assert_eq!(host.registry().get(1).symbol(), "MSFT");
    assert_ne!(host.registry().get(0).id(), host.registry().get(1).id());
    assert!(!host.registry().get(0).id().is_empty());
    assert!(matches!(&a[0], Action::OpenWindow { symbol, .. } if symbol == "MSFT"));
    assert!(matches!(&b[1], Action::StartFetch { symbol, .. } if symbol == "MSFT"));
}

#[test]
fn deleting_closes_tells_and_saves() {
    let mut host = host_with_client(0);
    host.add_widget_with("w1".to_string(), "MSFT".to_string());
    host.add_widget_with("w2".to_string(), "AAPL".to_string());
    host.fetch_completed("w1", Timeframe::OneMonth, series(0));
    host.fetch_completed("w2", Timeframe::OneMonth, series(0));
    let actions = host.handle_message(IpcMessage::DeleteChart("w1".to_string()), 10);
    assert_eq!(actions.len(), 3);
    assert!(matches!(&actions[0], Action::CloseWindow { id } if id == "w1"));
    assert_eq!(
        snapshot_sent(&actions),
        Some(vec![("w2".to_string(), "AAPL".to_string(), "1M".to_string(), true)])
    );
    assert!(matches!(actions[2], Action::Persist));
    assert_eq!(persisted_symbols(&host), vec!["AAPL".to_string()]);
    assert!(host.registry().find("w1").is_none());
    assert_eq!(host.registry().find("w2"), Some(0));
}

#[test]
fn a_late_result_for_a_deleted_widget_is_dropped() {
    let mut host = host_with_client(0);
    host.add_widget_with("w1".to_string(), "MSFT".to_string());
    host.fetch_completed("w1", Timeframe::OneMonth, series(0));
    host.remove_widget("w1");
    assert!(host.fetch_completed("w1", Timeframe::OneMonth, series(5)).is_empty());
    assert_eq!(host.registry().len(), 0);
}

#[test]
fn a_failure_on_an_active_widget_keeps_it() {
    let mut host = host_with_client(0);
    host.set_language("de".to_string());
    host.add_widget_with("w1".to_string(), "MSFT".to_string());
    host.fetch_completed("w1", Timeframe::OneMonth, series(7));
    let actions = host.fetch_failed("w1", &AppError::FetchError("timeout".to_string()));
    assert_eq!(actions.len(), 2);
    assert!(matches!(&actions[0], Action::ShowError { id, text }
        if id == "w1" && text == "Fehler beim Abrufen der Daten von Yahoo Finance"));
    assert!(matches!(&actions[1], Action::Send(IpcMessage::Error(t))
        if t == "Fehler beim Abrufen der Daten von Yahoo Finance"));
    assert_eq!(host.registry().len(), 1);
    assert_eq!(host.current_series("w1").unwrap().fetched_at(), 7);
}

#[test]
fn nothing_is_sent_without_a_client() {
    let mut host = empty_host(0);
    host.add_widget_with("w1".to_string(), "MSFT".to_string());
    let done = host.fetch_completed("w1", Timeframe::OneMonth, series(0));
    assert!(!done.iter().any(|a| matches!(a, Action::Send(_))));
    assert!(done.iter().any(|a| matches!(a, Action::Persist)));
    assert!(host.handle_message(IpcMessage::GetCharts, 1).is_empty());
    assert!(host.handle_message(IpcMessage::GetConfig, 1).is_empty());
    let lang = host.set_language("de".to_string());
    assert!(matches!(lang[..], [Action::Persist]));
    assert!(host.update_status(UpdateStatus::Updating).is_empty());
}

#[test]
fn one_session_at_a_time() {
    let mut host = empty_host(0);
    assert!(host.client_connected_now());
    assert!(!host.client_connected_now());
    assert!(host.client_connected());
    host.client_disconnected();
    assert!(host.client_connected_now());
}

#[test]
fn global_settings() {
    let mut host = host_with_client(0);
    let a = host.handle_message(IpcMessage::SetLanguage("de".to_string()), 1);
    assert!(matches!(&a[..], [Action::Send(IpcMessage::Config(c)), Action::Persist] if c.language == "de"));
    let a = host.handle_message(IpcMessage::SetAutoStart(true), 2);
    assert!(matches!(&a[..],
        [Action::SetAutostart(true), Action::Send(IpcMessage::Config(c)), Action::Persist] if c.auto_start));
    let a = host.handle_message(IpcMessage::SetUsePrereleases(true), 3);
    assert!(matches!(&a[..], [Action::Send(IpcMessage::Config(c)), Action::Persist] if c.use_prereleases));
    let a = host.handle_message(IpcMessage::GetConfig, 4);
    assert!(matches!(&a[..], [Action::Send(IpcMessage::Config(c))]
        if c.language == "de" && c.update_interval == 30 && c.auto_start && c.use_prereleases));
    let a = host.handle_message(IpcMessage::CheckForUpdates, 5);
    assert!(matches!(a[..], [Action::CheckUpdate { use_prereleases: true }]));
    let a = host.handle_message(IpcMessage::PerformUpdate, 6);
    assert!(matches!(a[..], [Action::ApplyUpdate { use_prereleases: true }]));
    let a = host.handle_message(IpcMessage::Restart, 7);
    assert!(matches!(a[..], [Action::Persist, Action::Restart]));
    let saved = host.config_snapshot();
    assert_eq!(saved.language, "de");
    assert!(saved.auto_start);
    assert!(saved.use_prereleases);
}

#[test]
fn pushes_from_the_client_are_ignored() {
    let mut host = host_with_client(0);
    assert!(host.handle_message(IpcMessage::Shutdown, 1).is_empty());
    assert!(host.handle_message(IpcMessage::Charts(vec![]), 1).is_empty());
    assert!(host.handle_message(IpcMessage::Error("x".to_string()), 1).is_empty());
    assert!(host.handle_message(IpcMessage::UpdateStatus(UpdateStatus::Updating), 1).is_empty());
    assert_eq!(host.config().language, "en");
}

#[test]
fn updater_states_are_forwarded() {
    let host = host_with_client(0);
    let a = host.update_status(UpdateStatus::Available("2.0".to_string()));
    assert!(matches!(&a[..], [
        Action::Send(IpcMessage::UpdateStatus(UpdateStatus::Available(v))),
        Action::NotifyUpdate { version }
    ] if v == "2.0" && version == "2.0"));
    let a = host.update_status(UpdateStatus::Updated("2.0".to_string()));
    assert!(matches!(&a[..], [Action::Send(IpcMessage::UpdateStatus(UpdateStatus::Updated(_)))]));
}

#[test]
fn dragging_needs_an_unlocked_window() {
    let mut host = host_with_client(0);
    host.add_widget_with("w1".to_string(), "MSFT".to_string());
    assert!(host.drag_requested("w1").is_empty());
    host.toggle_lock("w1", false, 1);
    let a = host.drag_requested("w1");
    assert!(matches!(&a[..], [Action::DragWindow { id }] if id == "w1"));
}

#[test]
fn a_moved_window_is_saved_with_its_place() {
    let mut host = host_with_client(0);
    host.add_widget_with("w1".to_string(), "MSFT".to_string());
    host.fetch_completed("w1", Timeframe::OneMonth, series(0));
    let place = Geometry { x: -10, y: 20, width: 300, height: 150 };
    host.window_moved("w1", place, 1_000);
    assert!(host.is_dirty());
    assert_eq!(host.registry().get(0).geometry(), Some(place));
    assert!(matches!(host.tick(1_500)[..], [Action::Persist]));
    assert_eq!(host.config_snapshot().widgets[0].geometry, Some(place));
}

#[test]
fn the_host_wakes_for_the_next_timer() {
    let mut host = empty_host(0);
    assert_eq!(host.next_wake(0), POLL_MS);
    assert_eq!(host.next_wake(30 * MINUTE_MS - 40), 30 * MINUTE_MS);
    assert_eq!(host.next_wake(30 * MINUTE_MS + 5), 30 * MINUTE_MS + 5);
    host.add_widget_with("w1".to_string(), "MSFT".to_string());
    host.toggle_lock("w1", false, 1_000);
    assert_eq!(host.next_wake(1_450), 1_500);
    assert_eq!(host.next_wake(1_000), 1_100);
    assert_eq!(host.next_wake(u64::MAX), u64::MAX);
}

#[test]
fn the_updater_is_asked_at_the_start_and_then_periodically() {
    let (mut host, _) = Orchestrator::start(&empty_config(), 1_000);
    let a = host.tick(1_000);
    assert!(matches!(a[..], [Action::CheckUpdate { use_prereleases: false }]));
    assert!(host.tick(1_000 + UPDATE_CHECK_MS - 1).is_empty());
    let a = host.tick(1_000 + UPDATE_CHECK_MS);
    assert!(a.iter().any(|x| matches!(x, Action::CheckUpdate { .. })));
}

#[test]
fn the_host_comes_back_from_its_settings() {
    let config = AppConfig {
        widgets: vec![
            WidgetConfig {
                id: "a".to_string(),
                symbol: "AAPL".to_string(),
                timeframe: "1W".to_string(),
                locked: false,
                geometry: Some(Geometry { x: 1, y: 2, width: 3, height: 4 }),
            },
            WidgetConfig {
                id: "b".to_string(),
                symbol: String::new(),
                timeframe: "1M".to_string(),
                locked: true,
                geometry: None,
            },
            WidgetConfig {
                id: "a".to_string(),
                symbol: "DUPL".to_string(),
                timeframe: "1M".to_string(),
                locked: true,
                geometry: None,
            },
            WidgetConfig {
                id: "c".to_string(),
                symbol: "MSFT".to_string(),
                timeframe: "bogus".to_string(),
                locked: true,
                geometry: None,
            },
        ],
        language: "de".to_string(),
        update_interval: 0,
        auto_start: true,
        use_prereleases: false,
    };
    let (host, actions) = Orchestrator::start(&config, 500);
    assert_eq!(host.registry().len(), 2);
    assert_eq!(actions.len(), 4);
    assert!(matches!(&actions[0], Action::OpenWindow { id, symbol, locked: false, geometry: Some(g) }
        if id == "a" && symbol == "AAPL" && g.width == 3));
    assert!(matches!(&actions[1],
        Action::StartFetch { id, timeframe: Timeframe::OneWeek, .. } if id == "a"));
    assert!(matches!(&actions[3],
        Action::StartFetch { id, timeframe: Timeframe::OneMonth, .. } if id == "c"));
    assert_eq!(host.registry().get(0).state(), WidgetState::Active);
    assert_eq!(host.config().update_interval, 30);
    assert_eq!(host.config().language, "de");
    assert_eq!(host.next_refresh(), 500 + 30 * MINUTE_MS);
    assert!(!host.client_connected());

    let saved = host.config_snapshot();
    assert_eq!(saved.widgets.len(), 2);
    assert_eq!(saved.widgets[0].timeframe, "1W");
    assert_eq!(saved.widgets[1].timeframe, "1M");
    assert!(saved.auto_start);
}

#[test]
fn a_restored_widget_survives_a_failed_fetch() {
    let config = AppConfig::first_start("w1".to_string());
    let (mut host, _) = Orchestrator::start(&config, 0);
    let actions = host.fetch_failed("w1", &AppError::NoQuotesFound);
    assert!(matches!(&actions[..], [Action::ShowError { .. }]));
    assert_eq!(host.registry().len(), 1);
    assert_eq!(persisted_symbols(&host), vec!["AAPL".to_string()]);
}

#[test]
fn the_settings_process_is_started_once() {
    let mut host = empty_host(0);
    assert!(matches!(host.open_settings()[..], [Action::LaunchSettings]));
    host.client_connected_now();
    assert!(host.open_settings().is_empty());
    host.client_disconnected();
    assert!(matches!(host.open_settings()[..], [Action::LaunchSettings]));
}

#[test]
fn quitting_tells_the_client_and_saves() {
    let mut host = host_with_client(0);
    host.add_widget_with("w1".to_string(), "MSFT".to_string());
    host.toggle_lock("w1", false, 10);
    let actions = host.quit();
    assert!(matches!(actions[..],
        [Action::Send(IpcMessage::Shutdown), Action::Persist, Action::Exit]));
    assert!(!host.is_dirty());
    let mut alone = empty_host(0);
    assert!(matches!(alone.quit()[..], [Action::Persist, Action::Exit]));
}

#[test]
fn an_empty_answer_of_the_provider_discards_a_new_widget() {
    let mut host = host_with_client(0);
    host.add_widget_with("w1".to_string(), "AAPL".to_string());
    let answer = desktop_widget_rs::stock::StockClient::complete(
        Timeframe::OneMonth,
        &vec![vec![]],
        None,
        50,
    );
    let error = answer.unwrap_err();
    assert!(matches!(error, AppError::NoQuotesFound));
    let actions = host.fetch_failed("w1", &error);
    assert!(matches!(&actions[0], Action::CloseWindow { id } if id == "w1"));
    assert!(snapshot_sent(&actions).is_none());
    assert!(!actions.iter().any(|a| matches!(a, Action::Persist)));
    let next = host.handle_message(IpcMessage::GetCharts, 60);
    assert_eq!(snapshot_sent(&next), Some(vec![]));
    assert!(host.config_snapshot().widgets.is_empty());
}

#[test]
fn first_start_settings() {
    let config = AppConfig::first_start("x".to_string());
    assert_eq!(config.widgets.len(), 1);
    assert_eq!(config.widgets[0].id, "x");
    assert_eq!(config.widgets[0].symbol, "AAPL");
    assert_eq!(config.widgets[0].timeframe, "1M");
    assert_eq!(config.language, "en");
    assert_eq!(config.update_interval, 30);
    let fresh = AppConfig::or_first_start(None);
    assert_eq!(fresh.widgets.len(), 1);
    assert_eq!(fresh.widgets[0].symbol, "AAPL");
    assert!(!fresh.widgets[0].id.is_empty());
    let kept = AppConfig::or_first_start(Some(empty_config()));
    assert!(kept.widgets.is_empty());
}
