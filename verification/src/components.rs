//! What the user does on the surfaces, and what it means in the protocol.

use vstd::prelude::*;
use crate::ipc::{message_views, ChartData, ChartView, IpcMessage, MessageView, chart_views};
use crate::text::{to_upper, uppercase_of};

verus! {

/// What the user does on the in-process settings list.
#[derive(Debug, Clone)]
pub enum SettingsMessage {
    /// Lock or unlock every widget.
    ToggleLock(bool),
    /// Add a widget for a symbol.
    Add(String),
    /// Remove the widget at a place of the list.
    Remove(usize),
    /// The text of the symbol field changed.
    InputChanged(String),
}

/// What the user does on a widget.
#[derive(Debug, Clone, Copy, PartialEq, Eq, Structural)]
pub enum WidgetMessage {
    /// The window was pressed to be dragged.
    StartDrag,
}

/// What a `SettingsMessage` holds.
pub enum SettingsMessageView {
    ToggleLock(bool),
    Add(Seq<char>),
    Remove(usize),
    InputChanged(Seq<char>),
}

impl View for SettingsMessage {
    type V = SettingsMessageView;

    open spec fn view(&self) -> SettingsMessageView {
        match self {
            SettingsMessage::ToggleLock(locked) => SettingsMessageView::ToggleLock(*locked),
            SettingsMessage::Add(symbol) => SettingsMessageView::Add(symbol@),
            SettingsMessage::Remove(place) => SettingsMessageView::Remove(*place),
            SettingsMessage::InputChanged(text) => SettingsMessageView::InputChanged(text@),
        }
    }
}

/// The lock toggles for every chart of a list.
pub open spec fn lock_requests(charts: Seq<ChartView>, locked: bool) -> Seq<MessageView> {
    Seq::new(charts.len(), |i: int| MessageView::ToggleChartLock(charts[i].id, locked))
}

/// The requests that say in the protocol what the user did on a list that
/// shows `charts`: the list speaks of places, the protocol of ids.
pub open spec fn requests_of(message: SettingsMessageView, charts: Seq<ChartView>) -> Seq<
    MessageView,
> {
    match message {
        SettingsMessageView::ToggleLock(locked) => lock_requests(charts, locked),
        SettingsMessageView::Add(symbol) => if symbol.len() > 0 {
            seq![MessageView::AddChart(uppercase_of(symbol))]
        } else {
            Seq::empty()
        },
        SettingsMessageView::Remove(place) => if place < charts.len() {
            seq![MessageView::DeleteChart(charts[place as int].id)]
        } else {
            Seq::empty()
        },
        SettingsMessageView::InputChanged(_) => Seq::empty(),
    }
}

impl SettingsMessage {
    /// Puts what the user did on the list into requests of the protocol.
    pub fn to_requests(&self, charts: &Vec<ChartData>) -> (r: Vec<IpcMessage>)
        ensures
            message_views(r@) == requests_of(self@, chart_views(charts@)),
    {
        let mut out: Vec<IpcMessage> = Vec::new();
        match self {
            SettingsMessage::ToggleLock(locked) => {
                let mut i: usize = 0;
                while i < charts.len()
                    invariant
                        i <= charts.len(),
                        out.len() == i,
                        forall|k: int|
                            0 <= k < i ==> out[k]@ == MessageView::ToggleChartLock(
                                charts[k]@.id,
                                *locked,
                            ),
                    decreases charts.len() - i,
                {
                    out.push(IpcMessage::ToggleChartLock(charts[i].id.clone(), *locked));
                    i += 1;
                }
                assert(message_views(out@) =~= lock_requests(chart_views(charts@), *locked));
            },
            SettingsMessage::Add(symbol) => {
                if !symbol.as_str().is_empty() {
                    out.push(IpcMessage::AddChart(to_upper(symbol.as_str())));
                }
                assert(message_views(out@) =~= requests_of(self@, chart_views(charts@)));
            },
            SettingsMessage::Remove(place) => {
                if *place < charts.len() {
                    out.push(IpcMessage::DeleteChart(charts[*place].id.clone()));
                }
                assert(message_views(out@) =~= requests_of(self@, chart_views(charts@)));
            },
            SettingsMessage::InputChanged(_) => {
                assert(message_views(out@) =~= requests_of(self@, chart_views(charts@)));
            },
        }
        out
    }
}

} // verus!
