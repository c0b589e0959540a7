//! Coordination engine for desktop stock-price widgets: the per-widget quote
//! cache and debouncer, the widget registry and its orchestrator, the framed
//! message protocol between the widget host and the settings process, and the
//! localized texts both sides show.

pub mod text;
pub mod language;
pub mod timeframe;
pub mod series;
pub mod cache;
pub mod cache_laws;
pub mod transport;
pub mod ipc;
pub mod settings;
pub mod registry;
pub mod config;
pub mod host;
pub mod host_laws;
pub mod orchestrator;
pub mod updater;
pub mod stock;
pub mod components;
pub mod display;
