//! The settings that outlive the host process: the persisted widgets and the
//! global options.

use vstd::prelude::*;
use crate::registry::Geometry;
use crate::text::owned;

verus! {

/// Minutes between two scheduled refreshes when nothing else was chosen.
pub const DEFAULT_INTERVAL_MIN: u64 = 30;

/// One persisted widget.
#[derive(Debug)]
pub struct WidgetConfig {
    pub id: String,
    pub symbol: String,
    /// The label of the timeframe.
    pub timeframe: String,
    pub locked: bool,
    pub geometry: Option<Geometry>,
}

/// What a `WidgetConfig` holds.
pub struct WidgetConfigView {
    pub id: Seq<char>,
    pub symbol: Seq<char>,
    pub timeframe: Seq<char>,
    pub locked: bool,
    pub geometry: Option<Geometry>,
}

impl View for WidgetConfig {
    type V = WidgetConfigView;

    open spec fn view(&self) -> WidgetConfigView {
        WidgetConfigView {
            id: self.id@,
            symbol: self.symbol@,
            timeframe: self.timeframe@,
            locked: self.locked,
            geometry: self.geometry,
        }
    }
}

/// Everything that is persisted.
#[derive(Debug)]
pub struct AppConfig {
    pub widgets: Vec<WidgetConfig>,
    pub language: String,
    /// Minutes between two scheduled refreshes.
    pub update_interval: u64,
    pub auto_start: bool,
    pub use_prereleases: bool,
}

/// What an `AppConfig` holds.
pub struct AppConfigView {
    pub widgets: Seq<WidgetConfigView>,
    pub language: Seq<char>,
    pub update_interval: u64,
    pub auto_start: bool,
    pub use_prereleases: bool,
}

/// What a list of persisted widgets holds.
pub open spec fn widget_config_views(widgets: Seq<WidgetConfig>) -> Seq<WidgetConfigView> {
    Seq::new(widgets.len(), |i: int| widgets[i]@)
}

impl View for AppConfig {
    type V = AppConfigView;

    open spec fn view(&self) -> AppConfigView {
        AppConfigView {
            widgets: widget_config_views(self.widgets@),
            language: self.language@,
            update_interval: self.update_interval,
            auto_start: self.auto_start,
            use_prereleases: self.use_prereleases,
        }
    }
}

impl AppConfigView {
    /// The settings of a first start: one locked widget for `AAPL` under the
    /// given id, English, a refresh every half hour.
    pub open spec fn first_start(id: Seq<char>) -> AppConfigView {
        AppConfigView {
            widgets: seq![
                WidgetConfigView {
                    id,
                    symbol: "AAPL"@,
                    timeframe: "1M"@,
                    locked: true,
                    geometry: None,
                },
            ],
            language: "en"@,
            update_interval: DEFAULT_INTERVAL_MIN,
            auto_start: false,
            use_prereleases: false,
        }
    }
}

/// Calls `uuid::Uuid::new_v4` and writes the identifier with its `Display`.
/// The identifier is random, so nothing is said of it.
#[verifier::external_body]
pub(crate) fn fresh_id() -> (id: String)
{
    uuid::Uuid::new_v4().to_string()
}

impl AppConfig {
    /// The settings of a first start, with its one widget under `id`.
    pub fn first_start(id: String) -> (r: AppConfig)
        ensures
            r@ == AppConfigView::first_start(id@),
    {
        let mut widgets: Vec<WidgetConfig> = Vec::new();
        widgets.push(
            WidgetConfig {
                id,
                symbol: owned("AAPL"),
                timeframe: owned("1M"),
                locked: true,
                geometry: None,
            },
        );
        let r = AppConfig {
            widgets,
            language: owned("en"),
            update_interval: DEFAULT_INTERVAL_MIN,
            auto_start: false,
            use_prereleases: false,
        };
        assert(r@.widgets =~= AppConfigView::first_start(id@).widgets);
        r
    }

    /// The settings to start with: the stored ones where the store gave any,
    /// and those of a first start, under a fresh id, where it was absent or
    /// unreadable.
    pub fn or_first_start(stored: Option<AppConfig>) -> (r: AppConfig)
        ensures
            match stored {
                Some(config) => r == config,
                None => exists|id: Seq<char>| r@ == AppConfigView::first_start(id),
            },
    {
        match stored {
            Some(config) => config,
            None => Self::first_start(fresh_id()),
        }
    }
}

} // verus!
