use desktop_widget_rs::components::{SettingsMessage, WidgetMessage};
use desktop_widget_rs::ipc::{
    duplicate_charts, ChartData, ConfigData, IpcMessage, MessageKind, UpdateStatus, PIPE_NAME,
};
use desktop_widget_rs::language::Language;
use desktop_widget_rs::settings::{
    code_of_language, display_name, displayed_timeframe, language_from_code, update_controls,
    SettingsClient, SettingsEvent, UpdateControls,
};
use desktop_widget_rs::timeframe::Timeframe;

fn chart(id: &str, symbol: &str, timeframe: &str, locked: bool) -> ChartData {
    ChartData {
        id: id.to_string(),
        symbol: symbol.to_string(),
        timeframe: timeframe.to_string(),
        locked,
    }
}

fn config(language: &str, interval: u64) -> ConfigData {
    ConfigData {
        language: language.to_string(),
        update_interval: interval,
        auto_start: false,
        use_prereleases: false,
    }
}

fn connected() -> SettingsClient {
    let mut client = SettingsClient::new();
    client.update(SettingsEvent::IpcConnected);
    client
}

#[test]
fn pipe_name() {
    assert_eq!(PIPE_NAME, r"\\.\pipe\desktop-widget-rs-ipc");
}

#[test]
fn a_new_client_knows_nothing() {
    let client = SettingsClient::new();
    assert!(client.charts().is_empty());
    assert!(client.config().is_none());
    assert!(client.update_status().is_none());
    assert_eq!(client.input_value(), "");
    assert!(client.error_message().is_none());
    assert!(!client.is_connected());
    assert_eq!(client.language(), Language::En);
}

#[test]
fn connecting_asks_for_the_whole_state() {
    let mut client = SettingsClient::new();
    let effect = client.update(SettingsEvent::IpcConnected);
    assert!(!effect.close);
    assert_eq!(effect.send.len(), 2);
    assert!(matches!(effect.send[0], IpcMessage::GetCharts));
    assert!(matches!(effect.send[1], IpcMessage::GetConfig));
    assert!(client.is_connected());
}

#[test]
fn reconnecting_forgets_and_asks_again() {
    let mut client = connected();
    client.update(SettingsEvent::IpcServerMessage(IpcMessage::Charts(vec![chart(
        "a", "AAPL", "1M", true,
    )])));
    client.update(SettingsEvent::IpcServerMessage(IpcMessage::Config(config("de", 30))));
    assert_eq!(client.charts().len(), 1);
    assert_eq!(client.language(), Language::De);

    let lost = client.update(SettingsEvent::IpcClosed);
    assert!(lost.send.is_empty());
    assert!(!lost.close);
    assert!(!client.is_connected());

    let back = client.update(SettingsEvent::IpcConnected);
    assert!(matches!(back.send[..], [IpcMessage::GetCharts, IpcMessage::GetConfig]));
    assert!(client.charts().is_empty());
    assert!(client.config().is_none());

    client.update(SettingsEvent::IpcServerMessage(IpcMessage::Charts(vec![
        chart("a", "AAPL", "1M", false),
        chart("b", "MSFT", "1D", true),
    ])));
    assert_eq!(client.charts().len(), 2);
    assert!(!client.charts()[0].locked);
    assert_eq!(client.charts()[1].symbol, "MSFT");
}

#[test]
fn a_push_replaces_what_was_held() {
    let mut client = connected();
    client.update(SettingsEvent::IpcServerMessage(IpcMessage::Charts(vec![
        chart("a", "AAPL", "1M", true),
        chart("b", "MSFT", "1M", true),
    ])));
    client.update(SettingsEvent::IpcServerMessage(IpcMessage::Charts(vec![chart(
        "c", "GOOG", "1W", false,
    )])));
    assert_eq!(client.charts().len(), 1);
    assert_eq!(client.charts()[0].id, "c");
    client.update(SettingsEvent::IpcServerMessage(IpcMessage::Error("boom".to_string())));
    assert_eq!(client.error_message().as_deref(), Some("boom"));
    client.update(SettingsEvent::IpcServerMessage(IpcMessage::UpdateStatus(
        UpdateStatus::Available("2.0".to_string()),
    )));
    assert!(matches!(client.update_status(), Some(UpdateStatus::Available(v)) if v == "2.0"));
}

#[test]
fn adding_sends_the_symbol_in_upper_case() {
    let mut client = connected();
    client.update(SettingsEvent::InputChanged("msft".to_string()));
    assert_eq!(client.input_value(), "msft");
    let effect = client.update(SettingsEvent::AddPressed);
    assert_eq!(effect.send.len(), 1);
    assert!(matches!(&effect.send[0], IpcMessage::AddChart(s) if s == "MSFT"));
    assert_eq!(client.input_value(), "");
}

#[test]
fn adding_nothing_sends_nothing() {
    let mut client = connected();
    let effect = client.update(SettingsEvent::AddPressed);
    assert!(effect.send.is_empty());
    assert!(!effect.close);
}

#[test]
fn typing_clears_the_error() {
    let mut client = connected();
    client.update(SettingsEvent::IpcServerMessage(IpcMessage::Error("bad".to_string())));
    client.update(SettingsEvent::InputChanged("a".to_string()));
    assert!(client.error_message().is_none());
}

#[test]
fn widget_requests_name_the_widget() {
    let mut client = connected();
    let e = client.update(SettingsEvent::DeletePressed("id-1".to_string()));
    assert!(matches!(&e.send[..], [IpcMessage::DeleteChart(id)] if id == "id-1"));
    let e = client.update(SettingsEvent::LockToggled("id-2".to_string(), false));
    assert!(matches!(&e.send[..], [IpcMessage::ToggleChartLock(id, false)] if id == "id-2"));
    let e = client.update(SettingsEvent::TimeframeChanged("id-3".to_string(), "1W".to_string()));
    assert!(
        matches!(&e.send[..], [IpcMessage::SetChartTimeframe(id, tf)] if id == "id-3" && tf == "1W")
    );
}

#[test]
fn settings_change_here_and_go_to_the_host() {
    let mut client = connected();
    client.update(SettingsEvent::IpcServerMessage(IpcMessage::Config(config("en", 30))));
    let e = client.update(SettingsEvent::LanguageChanged(Language::De));
    assert!(matches!(&e.send[..], [IpcMessage::SetLanguage(c)] if c == "de"));
    assert_eq!(client.config().as_ref().unwrap().language, "de");
    assert_eq!(client.language(), Language::De);
    let e = client.update(SettingsEvent::IntervalChanged(15));
    assert!(matches!(&e.send[..], [IpcMessage::SetUpdateInterval(15)]));
    assert_eq!(client.config().as_ref().unwrap().update_interval, 15);
    let e = client.update(SettingsEvent::AutoStartToggled(true));
    assert!(matches!(&e.send[..], [IpcMessage::SetAutoStart(true)]));
    assert!(client.config().as_ref().unwrap().auto_start);
    assert_eq!(client.config().as_ref().unwrap().language, "de");
}

#[test]
fn settings_without_a_config_only_go_to_the_host() {
    let mut client = connected();
    let e = client.update(SettingsEvent::IntervalChanged(60));
    assert!(matches!(&e.send[..], [IpcMessage::SetUpdateInterval(60)]));
    assert!(client.config().is_none());
}

#[test]
fn update_buttons_give_feedback_at_once() {
    let mut client = connected();
    let e = client.update(SettingsEvent::CheckUpdates);
    assert!(matches!(&e.send[..], [IpcMessage::CheckForUpdates]));
    assert!(matches!(client.update_status(), Some(UpdateStatus::Checking(s)) if s.is_empty()));
    let e = client.update(SettingsEvent::PerformUpdate);
    assert!(matches!(&e.send[..], [IpcMessage::PerformUpdate]));
    assert!(matches!(client.update_status(), Some(UpdateStatus::Updating)));
}

#[test]
fn nothing_is_sent_while_disconnected() {
    let mut client = SettingsClient::new();
    client.update(SettingsEvent::InputChanged("aapl".to_string()));
    assert!(client.update(SettingsEvent::AddPressed).send.is_empty());
    assert!(client.update(SettingsEvent::DeletePressed("x".to_string())).send.is_empty());
    assert!(client.update(SettingsEvent::CheckUpdates).send.is_empty());
    let restart = client.update(SettingsEvent::RestartApp);
    assert!(restart.send.is_empty());
    assert!(restart.close);
}

#[test]
fn only_restart_and_shutdown_close() {
    let mut client = connected();
    let e = client.update(SettingsEvent::RestartApp);
    assert!(e.close);
    assert!(matches!(&e.send[..], [IpcMessage::Restart]));
    let e = client.update(SettingsEvent::IpcServerMessage(IpcMessage::Shutdown));
    assert!(e.close);
    assert!(e.send.is_empty());
    let e = client.update(SettingsEvent::IpcClosed);
    assert!(!e.close);
    let e = client.update(SettingsEvent::IpcServerMessage(IpcMessage::Restart));
    assert!(!e.close);
    let e = client.update(SettingsEvent::IpcServerMessage(IpcMessage::GetCharts));
    assert!(!e.close);
    assert!(e.send.is_empty());
}

#[test]
fn language_codes_and_names() {
    assert_eq!(code_of_language(Language::En), "en");
    assert_eq!(code_of_language(Language::De), "de");
    assert_eq!(language_from_code("de"), Language::De);
    assert_eq!(language_from_code("en"), Language::En);
    assert_eq!(language_from_code("fr"), Language::En);
    assert_eq!(language_from_code(""), Language::En);
    assert_eq!(language_from_code("DE"), Language::En);
    assert_eq!(display_name(Language::En), "English");
    assert_eq!(display_name(Language::De), "Deutsch");
}

#[test]
fn the_picker_falls_back_to_one_month() {
    assert_eq!(displayed_timeframe("1W"), Timeframe::OneWeek);
    assert_eq!(displayed_timeframe("YTD"), Timeframe::YearToDate);
    assert_eq!(displayed_timeframe("6M"), Timeframe::SixMonths);
    assert_eq!(displayed_timeframe("5Y"), Timeframe::OneMonth);
    assert_eq!(displayed_timeframe(""), Timeframe::OneMonth);
}

#[test]
fn update_buttons() {
    let check = UpdateControls { show_check: true, show_update: false, show_restart: false };
    assert_eq!(update_controls(&None), check);
    assert_eq!(update_controls(&Some(UpdateStatus::Checking(String::new()))), check);
    assert_eq!(update_controls(&Some(UpdateStatus::UpToDate("1.0".to_string()))), check);
    assert_eq!(update_controls(&Some(UpdateStatus::Error("x".to_string()))), check);
    assert_eq!(
        update_controls(&Some(UpdateStatus::Available("2.0".to_string()))),
        UpdateControls { show_check: false, show_update: true, show_restart: false }
    );
    assert_eq!(
        update_controls(&Some(UpdateStatus::Updated("2.0".to_string()))),
        UpdateControls { show_check: false, show_update: false, show_restart: true }
    );
    assert_eq!(
        update_controls(&Some(UpdateStatus::Updating)),
        UpdateControls { show_check: false, show_update: false, show_restart: false }
    );
}

#[test]
fn kinds_of_messages() {
    assert_eq!(IpcMessage::GetCharts.kind(), MessageKind::Query);
    assert_eq!(IpcMessage::GetConfig.kind(), MessageKind::Query);
    assert_eq!(IpcMessage::AddChart("A".to_string()).kind(), MessageKind::Mutation);
    assert_eq!(IpcMessage::SetUsePrereleases(true).kind(), MessageKind::Mutation);
    assert_eq!(IpcMessage::Restart.kind(), MessageKind::Mutation);
    assert_eq!(IpcMessage::Charts(vec![]).kind(), MessageKind::Push);
    assert_eq!(IpcMessage::Config(config("en", 30)).kind(), MessageKind::Push);
    assert_eq!(IpcMessage::Shutdown.kind(), MessageKind::Push);
    assert_eq!(IpcMessage::Error(String::new()).kind(), MessageKind::Push);
    assert_eq!(IpcMessage::UpdateStatus(UpdateStatus::Updating).kind(), MessageKind::Push);
}

#[test]
fn copies_hold_the_same() {
    let c = chart("a", "AAPL", "1M", true);
    let d = c.duplicate();
    assert_eq!((d.id, d.symbol, d.timeframe, d.locked), (c.id, c.symbol, c.timeframe, c.locked));
    let list = vec![chart("a", "AAPL", "1M", true), chart("b", "MSFT", "1D", false)];
    let copy = duplicate_charts(&list);
    assert_eq!(copy.len(), 2);
    assert_eq!(copy[1].symbol, "MSFT");
    assert!(!copy[1].locked);
    let cfg = config("de", 45).duplicate();
    assert_eq!(cfg.language, "de");
    assert_eq!(cfg.update_interval, 45);
    assert!(matches!(UpdateStatus::Updated("3".to_string()).duplicate(), UpdateStatus::Updated(v) if v == "3"));
}

#[test]
fn the_list_speaks_of_places_the_protocol_of_ids() {
    let charts = vec![chart("a", "AAPL", "1M", true), chart("b", "MSFT", "1D", false)];
    let r = SettingsMessage::Remove(1).to_requests(&charts);
    assert!(matches!(&r[..], [IpcMessage::DeleteChart(id)] if id == "b"));
    assert!(SettingsMessage::Remove(2).to_requests(&charts).is_empty());
    let r = SettingsMessage::Add("nvda".to_string()).to_requests(&charts);
    assert!(matches!(&r[..], [IpcMessage::AddChart(s)] if s == "NVDA"));
    assert!(SettingsMessage::Add(String::new()).to_requests(&charts).is_empty());
    assert!(SettingsMessage::InputChanged("x".to_string()).to_requests(&charts).is_empty());
    let r = SettingsMessage::ToggleLock(false).to_requests(&charts);
    assert_eq!(r.len(), 2);
    assert!(matches!(&r[0], IpcMessage::ToggleChartLock(id, false) if id == "a"));
    assert!(matches!(&r[1], IpcMessage::ToggleChartLock(id, false) if id == "b"));
    assert_eq!(WidgetMessage::StartDrag, WidgetMessage::StartDrag);
}
