//! The messages that the widget host and the settings process exchange.

use vstd::prelude::*;

verus! {

/// The name of the local channel that the host listens on and the settings
/// process connects to.
pub const PIPE_NAME: &'static str = r"\\.\pipe\desktop-widget-rs-ipc";

/// One widget as the settings process sees it.
#[derive(Debug, Clone)]
pub struct ChartData {
    pub id: String,
    pub symbol: String,
    pub timeframe: String,
    pub locked: bool,
}

/// What a `ChartData` holds.
pub struct ChartView {
    pub id: Seq<char>,
    pub symbol: Seq<char>,
    pub timeframe: Seq<char>,
    pub locked: bool,
}

impl View for ChartData {
    type V = ChartView;

    open spec fn view(&self) -> ChartView {
        ChartView {
            id: self.id@,
            symbol: self.symbol@,
            timeframe: self.timeframe@,
            locked: self.locked,
        }
    }
}

/// The global settings as the settings process sees them.
#[derive(Debug, Clone)]
pub struct ConfigData {
    pub language: String,
    /// Minutes between two scheduled refreshes.
    pub update_interval: u64,
    pub auto_start: bool,
    pub use_prereleases: bool,
}

/// What a `ConfigData` holds.
pub struct ConfigView {
    pub language: Seq<char>,
    pub update_interval: u64,
    pub auto_start: bool,
    pub use_prereleases: bool,
}

impl View for ConfigData {
    type V = ConfigView;

    open spec fn view(&self) -> ConfigView {
        ConfigView {
            language: self.language@,
            update_interval: self.update_interval,
            auto_start: self.auto_start,
            use_prereleases: self.use_prereleases,
        }
    }
}

/// Where the updater stands.
#[derive(Debug, Clone)]
pub enum UpdateStatus {
    Checking(String),
    Available(String),
    UpToDate(String),
    Error(String),
    Updating,
    Updated(String),
}

/// What an `UpdateStatus` holds.
pub enum StatusView {
    Checking(Seq<char>),
    Available(Seq<char>),
    UpToDate(Seq<char>),
    Error(Seq<char>),
    Updating,
    Updated(Seq<char>),
}

impl View for UpdateStatus {
    type V = StatusView;

    open spec fn view(&self) -> StatusView {
        match self {
            UpdateStatus::Checking(s) => StatusView::Checking(s@),
            UpdateStatus::Available(s) => StatusView::Available(s@),
            UpdateStatus::UpToDate(s) => StatusView::UpToDate(s@),
            UpdateStatus::Error(s) => StatusView::Error(s@),
            UpdateStatus::Updating => StatusView::Updating,
            UpdateStatus::Updated(s) => StatusView::Updated(s@),
        }
    }
}

/// A message between the host and the settings process.
#[derive(Debug, Clone)]
pub enum IpcMessage {
    GetCharts,
    GetConfig,
    Config(ConfigData),
    Charts(Vec<ChartData>),
    AddChart(String),
    DeleteChart(String),
    ToggleChartLock(String, bool),
    SetChartTimeframe(String, String),
    SetLanguage(String),
    SetUpdateInterval(u64),
    SetAutoStart(bool),
    SetUsePrereleases(bool),
    CheckForUpdates,
    PerformUpdate,
    UpdateStatus(UpdateStatus),
    Error(String),
    Restart,
    Shutdown,
}

/// What a message holds.
pub enum MessageView {
    GetCharts,
    GetConfig,
    Config(ConfigView),
    Charts(Seq<ChartView>),
    AddChart(Seq<char>),
    DeleteChart(Seq<char>),
    ToggleChartLock(Seq<char>, bool),
    SetChartTimeframe(Seq<char>, Seq<char>),
    SetLanguage(Seq<char>),
    SetUpdateInterval(u64),
    SetAutoStart(bool),
    SetUsePrereleases(bool),
    CheckForUpdates,
    PerformUpdate,
    UpdateStatus(StatusView),
    Error(Seq<char>),
    Restart,
    Shutdown,
}

/// What a list of charts holds.
pub open spec fn chart_views(charts: Seq<ChartData>) -> Seq<ChartView> {
    Seq::new(charts.len(), |i: int| charts[i]@)
}

/// What a list of messages holds.
pub open spec fn message_views(messages: Seq<IpcMessage>) -> Seq<MessageView> {
    Seq::new(messages.len(), |i: int| messages[i]@)
}

impl View for IpcMessage {
    type V = MessageView;

    open spec fn view(&self) -> MessageView {
        match self {
            IpcMessage::GetCharts => MessageView::GetCharts,
            IpcMessage::GetConfig => MessageView::GetConfig,
            IpcMessage::Config(c) => MessageView::Config(c@),
            IpcMessage::Charts(charts) => MessageView::Charts(chart_views(charts@)),
            IpcMessage::AddChart(s) => MessageView::AddChart(s@),
            IpcMessage::DeleteChart(id) => MessageView::DeleteChart(id@),
            IpcMessage::ToggleChartLock(id, locked) => MessageView::ToggleChartLock(id@, *locked),
            IpcMessage::SetChartTimeframe(id, tf) => MessageView::SetChartTimeframe(id@, tf@),
            IpcMessage::SetLanguage(code) => MessageView::SetLanguage(code@),
            IpcMessage::SetUpdateInterval(m) => MessageView::SetUpdateInterval(*m),
            IpcMessage::SetAutoStart(b) => MessageView::SetAutoStart(*b),
            IpcMessage::SetUsePrereleases(b) => MessageView::SetUsePrereleases(*b),
            IpcMessage::CheckForUpdates => MessageView::CheckForUpdates,
            IpcMessage::PerformUpdate => MessageView::PerformUpdate,
            IpcMessage::UpdateStatus(s) => MessageView::UpdateStatus(s@),
            IpcMessage::Error(text) => MessageView::Error(text@),
            IpcMessage::Restart => MessageView::Restart,
            IpcMessage::Shutdown => MessageView::Shutdown,
        }
    }
}

/// Who sends a message.
#[derive(Clone, Copy, Debug, PartialEq, Eq, Structural)]
pub enum MessageKind {
    /// A question of the settings process that changes nothing.
    Query,
    /// A request of the settings process to change something.
    Mutation,
    /// State that the host sends to the settings process.
    Push,
}

impl MessageView {
    /// The kind of a message.
    pub open spec fn kind(self) -> MessageKind {
        match self {
            MessageView::GetCharts | MessageView::GetConfig => MessageKind::Query,
            MessageView::Config(_)
            | MessageView::Charts(_)
            | MessageView::UpdateStatus(_)
            | MessageView::Error(_)
            | MessageView::Shutdown => MessageKind::Push,
            _ => MessageKind::Mutation,
        }
    }
}

impl IpcMessage {
    /// Whether the message is a query, a mutation or a push.
    pub fn kind(&self) -> (r: MessageKind)
        ensures
            r == self@.kind(),
    {
        match self {
            IpcMessage::GetCharts | IpcMessage::GetConfig => MessageKind::Query,
            IpcMessage::Config(_)
            | IpcMessage::Charts(_)
            | IpcMessage::UpdateStatus(_)
            | IpcMessage::Error(_)
            | IpcMessage::Shutdown => MessageKind::Push,
            _ => MessageKind::Mutation,
        }
    }
}

impl ChartData {
    /// A copy of the chart.
    pub fn duplicate(&self) -> (r: ChartData)
        ensures
            r@ == self@,
    {
        ChartData {
            id: self.id.clone(),
            symbol: self.symbol.clone(),
            timeframe: self.timeframe.clone(),
            locked: self.locked,
        }
    }
}

impl ConfigData {
    /// A copy of the settings.
    pub fn duplicate(&self) -> (r: ConfigData)
        ensures
            r@ == self@,
    {
        ConfigData {
            language: self.language.clone(),
            update_interval: self.update_interval,
            auto_start: self.auto_start,
            use_prereleases: self.use_prereleases,
        }
    }
}

impl UpdateStatus {
    /// A copy of the status.
    pub fn duplicate(&self) -> (r: UpdateStatus)
        ensures
            r@ == self@,
    {
        match self {
            UpdateStatus::Checking(s) => UpdateStatus::Checking(s.clone()),
            UpdateStatus::Available(s) => UpdateStatus::Available(s.clone()),
            UpdateStatus::UpToDate(s) => UpdateStatus::UpToDate(s.clone()),
            UpdateStatus::Error(s) => UpdateStatus::Error(s.clone()),
            UpdateStatus::Updating => UpdateStatus::Updating,
            UpdateStatus::Updated(s) => UpdateStatus::Updated(s.clone()),
        }
    }
}

/// A copy of a list of charts.
pub fn duplicate_charts(charts: &Vec<ChartData>) -> (r: Vec<ChartData>)
    ensures
        chart_views(r@) == chart_views(charts@),
{
    let mut out: Vec<ChartData> = Vec::new();
    let mut i: usize = 0;
    while i < charts.len()
        invariant
            i <= charts.len(),
            out.len() == i,
            forall|k: int| 0 <= k < i ==> out[k]@ == charts[k]@,
        decreases charts.len() - i,
    {
        out.push(charts[i].duplicate());
        i += 1;
    }
    assert(chart_views(out@) =~= chart_views(charts@));
    out
}

} // verus!
