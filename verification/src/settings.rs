//! The settings process: what it remembers of the host's state, what it
//! sends when the user acts, and how it takes the host's pushes.

use vstd::prelude::*;
use crate::ipc::{
    chart_views, message_views, ChartData, ChartView, ConfigData, ConfigView, IpcMessage,
    MessageView, StatusView, UpdateStatus,
};
use crate::language::Language;
use crate::text::{owned, str_eq, to_upper, uppercase_of};
use crate::timeframe::{parse_timeframe, Timeframe};

verus! {

/// What the user or the transport does to the settings surface.
#[derive(Debug)]
pub enum SettingsEvent {
    InputChanged(String),
    AddPressed,
    DeletePressed(String),
    LockToggled(String, bool),
    TimeframeChanged(String, String),
    LanguageChanged(Language),
    IntervalChanged(u64),
    AutoStartToggled(bool),
    CheckUpdates,
    PerformUpdate,
    RestartApp,
    /// The transport has connected, for the first time or again.
    IpcConnected,
    /// The host sent a message.
    IpcServerMessage(IpcMessage),
    /// The connection broke.
    IpcClosed,
}

/// What an event holds.
pub enum EventView {
    InputChanged(Seq<char>),
    AddPressed,
    DeletePressed(Seq<char>),
    LockToggled(Seq<char>, bool),
    TimeframeChanged(Seq<char>, Seq<char>),
    LanguageChanged(Language),
    IntervalChanged(u64),
    AutoStartToggled(bool),
    CheckUpdates,
    PerformUpdate,
    RestartApp,
    IpcConnected,
    IpcServerMessage(MessageView),
    IpcClosed,
}

impl View for SettingsEvent {
    type V = EventView;

    open spec fn view(&self) -> EventView {
        match self {
            SettingsEvent::InputChanged(s) => EventView::InputChanged(s@),
            SettingsEvent::AddPressed => EventView::AddPressed,
            SettingsEvent::DeletePressed(id) => EventView::DeletePressed(id@),
            SettingsEvent::LockToggled(id, b) => EventView::LockToggled(id@, *b),
            SettingsEvent::TimeframeChanged(id, tf) => EventView::TimeframeChanged(id@, tf@),
            SettingsEvent::LanguageChanged(l) => EventView::LanguageChanged(*l),
            SettingsEvent::IntervalChanged(m) => EventView::IntervalChanged(*m),
            SettingsEvent::AutoStartToggled(b) => EventView::AutoStartToggled(*b),
            SettingsEvent::CheckUpdates => EventView::CheckUpdates,
            SettingsEvent::PerformUpdate => EventView::PerformUpdate,
            SettingsEvent::RestartApp => EventView::RestartApp,
            SettingsEvent::IpcConnected => EventView::IpcConnected,
            SettingsEvent::IpcServerMessage(m) => EventView::IpcServerMessage(m@),
            SettingsEvent::IpcClosed => EventView::IpcClosed,
        }
    }
}

/// What the settings process is to do after an event.
#[derive(Debug)]
pub struct SettingsEffect {
    /// The messages to send to the host, in order.
    pub send: Vec<IpcMessage>,
    /// Whether the settings process is to close itself.
    pub close: bool,
}

/// The code of a language in the protocol and in the stored settings.
pub open spec fn language_code(lang: Language) -> Seq<char> {
    match lang {
        Language::En => "en"@,
        Language::De => "de"@,
    }
}

/// The language that a code of the protocol stands for: German for `de`,
/// English for everything else.
pub open spec fn language_of_code(code: Seq<char>) -> Language {
    if code == "de"@ {
        Language::De
    } else {
        Language::En
    }
}

/// The name of a language in the language picker.
pub open spec fn language_name(lang: Language) -> Seq<char> {
    match lang {
        Language::En => "English"@,
        Language::De => "Deutsch"@,
    }
}

/// The code of a language in the protocol and in the stored settings.
pub fn code_of_language(lang: Language) -> (r: &'static str)
    ensures
        r@ == language_code(lang),
{
    match lang {
        Language::En => "en",
        Language::De => "de",
    }
}

/// The language that a code of the protocol stands for.
pub fn language_from_code(code: &str) -> (r: Language)
    ensures
        r == language_of_code(code@),
{
    if str_eq(code, "de") {
        Language::De
    } else {
        Language::En
    }
}

/// The name of a language in the language picker.
pub fn display_name(lang: Language) -> (r: &'static str)
    ensures
        r@ == language_name(lang),
{
    match lang {
        Language::En => "English",
        Language::De => "Deutsch",
    }
}

/// Reading the code of a language gives the language back.
pub proof fn lemma_language_code_round_trip(lang: Language)
    ensures
        language_of_code(language_code(lang)) == lang,
{
    reveal_strlit("en");
    reveal_strlit("de");
    assert("en"@[0] != "de"@[0]);
}

/// What the settings process holds.
pub struct ClientView {
    /// The last widget list the host pushed.
    pub charts: Seq<ChartView>,
    /// The last settings the host pushed, if any since the connection stands.
    pub config: Option<ConfigView>,
    pub update_status: Option<StatusView>,
    /// The text in the symbol field.
    pub input: Seq<char>,
    pub error: Option<Seq<char>>,
    pub connected: bool,
}

impl ClientView {
    /// The state of a settings process that has just started.
    pub open spec fn initial() -> ClientView {
        ClientView {
            charts: Seq::empty(),
            config: None,
            update_status: None,
            input: Seq::empty(),
            error: None,
            connected: false,
        }
    }

    /// The state after the host pushed `message`: a push replaces what was
    /// held of its kind, and nothing is merged.
    pub open spec fn after_push(self, message: MessageView) -> ClientView {
        match message {
            MessageView::Charts(charts) => ClientView { charts, ..self },
            MessageView::Config(config) => ClientView { config: Some(config), ..self },
            MessageView::UpdateStatus(status) => ClientView { update_status: Some(status), ..self },
            MessageView::Error(text) => ClientView { error: Some(text), ..self },
            _ => self,
        }
    }

    /// The state after an event.
    pub open spec fn after(self, event: EventView) -> ClientView {
        match event {
            EventView::InputChanged(text) => ClientView { input: text, error: None, ..self },
            EventView::AddPressed => ClientView { input: Seq::empty(), ..self },
            EventView::LanguageChanged(lang) => match self.config {
                Some(c) => ClientView {
                    config: Some(ConfigView { language: language_code(lang), ..c }),
                    ..self
                },
                None => self,
            },
            EventView::IntervalChanged(minutes) => match self.config {
                Some(c) => ClientView {
                    config: Some(ConfigView { update_interval: minutes, ..c }),
                    ..self
                },
                None => self,
            },
            EventView::AutoStartToggled(enabled) => match self.config {
                Some(c) => ClientView {
                    config: Some(ConfigView { auto_start: enabled, ..c }),
                    ..self
                },
                None => self,
            },
            EventView::CheckUpdates => ClientView {
                update_status: Some(StatusView::Checking(Seq::empty())),
                ..self
            },
            EventView::PerformUpdate => ClientView {
                update_status: Some(StatusView::Updating),
                ..self
            },
            EventView::IpcConnected => ClientView {
                charts: Seq::empty(),
                config: None,
                connected: true,
                ..self
            },
            EventView::IpcServerMessage(message) => self.after_push(message),
            EventView::IpcClosed => ClientView { connected: false, ..self },
            _ => self,
        }
    }

    /// The messages that an event asks to send.
    pub open spec fn requests(self, event: EventView) -> Seq<MessageView> {
        match event {
            EventView::AddPressed => if self.input.len() > 0 {
                seq![MessageView::AddChart(uppercase_of(self.input))]
            } else {
                Seq::empty()
            },
            EventView::DeletePressed(id) => seq![MessageView::DeleteChart(id)],
            EventView::LockToggled(id, locked) => seq![MessageView::ToggleChartLock(id, locked)],
            EventView::TimeframeChanged(id, tf) => seq![MessageView::SetChartTimeframe(id, tf)],
            EventView::LanguageChanged(lang) => seq![
                MessageView::SetLanguage(language_code(lang)),
            ],
            EventView::IntervalChanged(minutes) => seq![MessageView::SetUpdateInterval(minutes)],
            EventView::AutoStartToggled(enabled) => seq![MessageView::SetAutoStart(enabled)],
            EventView::CheckUpdates => seq![MessageView::CheckForUpdates],
            EventView::PerformUpdate => seq![MessageView::PerformUpdate],
            EventView::RestartApp => seq![MessageView::Restart],
            EventView::IpcConnected => seq![MessageView::GetCharts, MessageView::GetConfig],
            _ => Seq::empty(),
        }
    }

    /// The messages that go out after an event: the requests of the event
    /// while the connection stands, and none while it does not.
    pub open spec fn sent(self, event: EventView) -> Seq<MessageView> {
        if self.after(event).connected {
            self.requests(event)
        } else {
            Seq::empty()
        }
    }

    /// Whether an event ends the settings process: only the user's restart
    /// and the host's shutdown do.
    pub open spec fn closes(event: EventView) -> bool {
        event is RestartApp || event == EventView::IpcServerMessage(MessageView::Shutdown)
    }
}

/// The state of the settings process.
#[derive(Debug)]
pub struct SettingsClient {
    charts: Vec<ChartData>,
    config: Option<ConfigData>,
    update_status: Option<UpdateStatus>,
    input_value: String,
    error_message: Option<String>,
    connected: bool,
}

impl View for SettingsClient {
    type V = ClientView;

    closed spec fn view(&self) -> ClientView {
        ClientView {
            charts: chart_views(self.charts@),
            config: match self.config {
                Some(c) => Some(c@),
                None => None,
            },
            update_status: match self.update_status {
                Some(s) => Some(s@),
                None => None,
            },
            input: self.input_value@,
            error: match self.error_message {
                Some(e) => Some(e@),
                None => None,
            },
            connected: self.connected,
        }
    }
}

impl SettingsClient {
    /// The settings process as it starts: it knows nothing and is not
    /// connected.
    pub fn new() -> (r: SettingsClient)
        ensures
            r@ == ClientView::initial(),
    {
        let r = SettingsClient {
            charts: Vec::new(),
            config: None,
            update_status: None,
            input_value: String::new(),
            error_message: None,
            connected: false,
        };
        assert(chart_views(r.charts@) =~= Seq::empty());
        r
    }

    /// Takes one event and says what to send and whether to close.
    pub fn update(&mut self, event: SettingsEvent) -> (effect: SettingsEffect)
        ensures
            final(self)@ == old(self)@.after(event@),
            message_views(effect.send@) == old(self)@.sent(event@),
            effect.close == ClientView::closes(event@),
    {
        let mut send: Vec<IpcMessage> = Vec::new();
        let mut close = false;
        match event {
            SettingsEvent::InputChanged(text) => {
                self.input_value = text;
                self.error_message = None;
            },
            SettingsEvent::AddPressed => {
                if !self.input_value.as_str().is_empty() {
                    let upper = to_upper(self.input_value.as_str());
                    send.push(IpcMessage::AddChart(upper));
                }
                self.input_value = String::new();
                assert(self.input_value@ =~= Seq::<char>::empty());
            },
            SettingsEvent::DeletePressed(id) => {
                send.push(IpcMessage::DeleteChart(id));
            },
            SettingsEvent::LockToggled(id, locked) => {
                send.push(IpcMessage::ToggleChartLock(id, locked));
            },
            SettingsEvent::TimeframeChanged(id, timeframe) => {
                send.push(IpcMessage::SetChartTimeframe(id, timeframe));
            },
            SettingsEvent::LanguageChanged(lang) => {
                let code = code_of_language(lang);
                let changed = match &self.config {
                    Some(c) => Some(
                        ConfigData {
                            language: owned(code),
                            update_interval: c.update_interval,
                            auto_start: c.auto_start,
                            use_prereleases: c.use_prereleases,
                        },
                    ),
                    None => None,
                };
                self.config = changed;
                send.push(IpcMessage::SetLanguage(owned(code)));
            },
            SettingsEvent::IntervalChanged(minutes) => {
                let changed = match &self.config {
                    Some(c) => Some(
                        ConfigData {
                            language: c.language.clone(),
                            update_interval: minutes,
                            auto_start: c.auto_start,
                            use_prereleases: c.use_prereleases,
                        },
                    ),
                    None => None,
                };
                self.config = changed;
                send.push(IpcMessage::SetUpdateInterval(minutes));
            },
            SettingsEvent::AutoStartToggled(enabled) => {
                let changed = match &self.config {
                    Some(c) => Some(
                        ConfigData {
                            language: c.language.clone(),
                            update_interval: c.update_interval,
                            auto_start: enabled,
                            use_prereleases: c.use_prereleases,
                        },
                    ),
                    None => None,
                };
                self.config = changed;
                send.push(IpcMessage::SetAutoStart(enabled));
            },
            SettingsEvent::CheckUpdates => {
                self.update_status = Some(UpdateStatus::Checking(String::new()));
                send.push(IpcMessage::CheckForUpdates);
            },
            SettingsEvent::PerformUpdate => {
                self.update_status = Some(UpdateStatus::Updating);
                send.push(IpcMessage::PerformUpdate);
            },
            SettingsEvent::RestartApp => {
                send.push(IpcMessage::Restart);
                close = true;
            },
            SettingsEvent::IpcConnected => {
                self.charts = Vec::new();
                self.config = None;
                self.connected = true;
                send.push(IpcMessage::GetCharts);
                send.push(IpcMessage::GetConfig);
                assert(chart_views(self.charts@) =~= Seq::empty());
            },
            SettingsEvent::IpcServerMessage(message) => {
                match message {
                    IpcMessage::Charts(charts) => {
                        self.charts = charts;
                    },
                    IpcMessage::Config(config) => {
                        self.config = Some(config);
                    },
                    IpcMessage::UpdateStatus(status) => {
                        self.update_status = Some(status);
                    },
                    IpcMessage::Error(text) => {
                        self.error_message = Some(text);
                    },
                    IpcMessage::Shutdown => {
                        close = true;
                    },
                    _ => {},
                }
            },
            SettingsEvent::IpcClosed => {
                self.connected = false;
            },
        }
        if !self.connected {
            send = Vec::new();
        }
        assert(message_views(send@) =~= old(self)@.sent(event@));
        SettingsEffect { send, close }
    }

    /// The last widget list the host pushed.
    pub fn charts(&self) -> (r: &Vec<ChartData>)
        ensures
            chart_views(r@) == self@.charts,
    {
        &self.charts
    }

    /// The last settings the host pushed, if any since the connection stands.
    pub fn config(&self) -> (r: &Option<ConfigData>)
        ensures
            match r {
                Some(c) => self@.config == Some(c@),
                None => self@.config is None,
            },
    {
        &self.config
    }

    /// Where the updater stands, as far as the settings process knows.
    pub fn update_status(&self) -> (r: &Option<UpdateStatus>)
        ensures
            match r {
                Some(s) => self@.update_status == Some(s@),
                None => self@.update_status is None,
            },
    {
        &self.update_status
    }

    /// The text in the symbol field.
    pub fn input_value(&self) -> (r: &str)
        ensures
            r@ == self@.input,
    {
        self.input_value.as_str()
    }

    /// The error on display, if any.
    pub fn error_message(&self) -> (r: &Option<String>)
        ensures
            match r {
                Some(e) => self@.error == Some(e@),
                None => self@.error is None,
            },
    {
        &self.error_message
    }

    /// Whether the connection to the host stands; while it does not, the
    /// surface shows that it is reconnecting.
    pub fn is_connected(&self) -> (r: bool)
        ensures
            r == self@.connected,
    {
        self.connected
    }

    /// The language that the surface is shown in.
    pub fn language(&self) -> (r: Language)
        ensures
            r == match self@.config {
                Some(c) => language_of_code(c.language),
                None => Language::En,
            },
    {
        match &self.config {
            Some(c) => language_from_code(c.language.as_str()),
            None => Language::En,
        }
    }
}

/// After a reconnection the settings process holds nothing of what it knew
/// before: it asks for the widget list and the settings, and what it shows
/// afterwards is what the host answers, whatever it held before the
/// connection broke.
pub proof fn lemma_reconnect_starts_from_nothing(
    before: ClientView,
    charts: Seq<ChartView>,
    config: ConfigView,
)
    ensures
        ({
            let lost = before.after(EventView::IpcClosed);
            let back = lost.after(EventView::IpcConnected);
            let answered = back.after(EventView::IpcServerMessage(MessageView::Charts(charts))).after(
                EventView::IpcServerMessage(MessageView::Config(config)),
            );
            &&& !lost.connected
            &&& lost.sent(EventView::IpcConnected) == seq![
                MessageView::GetCharts,
                MessageView::GetConfig,
            ]
            &&& back.connected
            &&& back.charts == Seq::<ChartView>::empty()
            &&& back.config is None
            &&& answered.charts == charts
            &&& answered.config == Some(config)
        }),
{
}

/// While the connection is down nothing is sent, whatever the user does, and
/// no event but a restart by the user or a shutdown by the host closes the
/// settings process.
pub proof fn lemma_disconnected_sends_nothing(state: ClientView, event: EventView)
    requires
        !state.connected,
        !(event is IpcConnected),
    ensures
        state.sent(event) == Seq::<MessageView>::empty(),
        event is IpcClosed ==> !ClientView::closes(event),
{
}

/// Only the host pushes: a message of the kind that the settings process
/// sends changes nothing when the settings process receives it, and nothing
/// that the host sends makes the settings process send.
pub proof fn lemma_client_ignores_requests(state: ClientView, message: MessageView)
    ensures
        message.kind() != crate::ipc::MessageKind::Push ==> state.after(
            EventView::IpcServerMessage(message),
        ) == state,
        state.sent(EventView::IpcServerMessage(message)) == Seq::<MessageView>::empty(),
        ClientView::closes(EventView::IpcServerMessage(message)) <==> message
            == MessageView::Shutdown,
{
}

/// The timeframe that the picker of a widget shows for a label of the
/// protocol: the timeframe of that label, and one month for a label that is
/// none.
pub open spec fn displayed_timeframe_of(code: Seq<char>) -> Timeframe {
    match parse_timeframe(code) {
        Some(tf) => tf,
        None => Timeframe::OneMonth,
    }
}

/// The timeframe that the picker of a widget shows for a label of the
/// protocol.
pub fn displayed_timeframe(code: &str) -> (r: Timeframe)
    ensures
        r == displayed_timeframe_of(code@),
{
    match Timeframe::from_code(code) {
        Some(tf) => tf,
        None => Timeframe::OneMonth,
    }
}

/// Which of the three update buttons the settings surface offers.
#[derive(Clone, Copy, Debug, PartialEq, Eq, Structural)]
pub struct UpdateControls {
    pub show_check: bool,
    pub show_update: bool,
    pub show_restart: bool,
}

/// The buttons that go with a status of the updater: an available update
/// can be installed, an installed one asks for a restart, and a check is
/// offered whenever neither is the case and no update is being installed.
pub open spec fn controls_of(status: Option<StatusView>) -> UpdateControls {
    let show_update = status matches Some(StatusView::Available(_));
    let show_restart = status matches Some(StatusView::Updated(_));
    let updating = status == Some(StatusView::Updating);
    UpdateControls { show_check: !show_update && !show_restart && !updating, show_update, show_restart }
}

/// Which of the update buttons go with a status of the updater.
pub fn update_controls(status: &Option<UpdateStatus>) -> (r: UpdateControls)
    ensures
        r == controls_of(
            match status {
                Some(s) => Some(s@),
                None => None,
            },
        ),
{
    let (show_update, show_restart, updating) = match status {
        Some(UpdateStatus::Available(_)) => (true, false, false),
        Some(UpdateStatus::Updated(_)) => (false, true, false),
        Some(UpdateStatus::Updating) => (false, false, true),
        _ => (false, false, false),
    };
    UpdateControls { show_check: !show_update && !show_restart && !updating, show_update, show_restart }
}

/// At most one of the three update buttons is offered at a time.
pub proof fn lemma_one_update_button(status: Option<StatusView>)
    ensures
        !(controls_of(status).show_check && controls_of(status).show_update),
        !(controls_of(status).show_check && controls_of(status).show_restart),
        !(controls_of(status).show_update && controls_of(status).show_restart),
{
}

} // verus!
