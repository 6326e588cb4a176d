//! An interactive terminal dashboard core: it polls a Prometheus-compatible
//! metrics backend on a fixed interval, keeps the returned time series in a
//! buffer, keeps recent log lines in a bounded ring, and drives a hierarchical
//! menu from keyboard events.
//!
//! This crate holds the verified logic: query preparation (name lookup,
//! template rendering, time windows), response parsing, the bounded log ring,
//! the navigation state machine, and the event-loop decisions. The unverified
//! shell around it performs terminal and network I/O.
mod app_data;
mod cfg_file;
mod cli;
mod errors;
mod json;
mod log_ring;
mod nav;
mod numtext;
mod prometheus;
mod query;
mod template;

pub use app_data::AppData;
pub use app_data::Key;
pub use app_data::LoopDirective;
pub use cfg_file::ConfigFile;
pub use cli::Cli;
pub use cli::Commands;
pub use cli::LogLevel;
pub use cli::log_level_of;
pub use cli::resolve_log_level;
pub use cli::Query;
pub use cfg_file::QueryRef;
pub use cfg_file::ServerRef;
pub use errors::QueryError;
pub use json::Json;
pub use json::JsonV;
pub use json::parse_json;
pub use log_ring::lemma_ring_holds_recent_history;
pub use log_ring::LogRing;
pub use nav::make_menu;
pub use prometheus::parse_prom_response;
pub use prometheus::Sample;
pub use query::HttpRequest;
pub use query::parse_eval_pairs;
pub use query::prepare_query;
pub use query::prepare_query_range;
pub use nav::MenuAction;
pub use nav::MenuGroup;
pub use nav::NavState;
pub use nav::Navigation;
pub use numtext::is_numeric_text;
pub use numtext::u64_to_string;
pub use template::render_template;
pub use template::lemma_render_deterministic;
