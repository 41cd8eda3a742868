//! Core of a terminal client for a remote download-management service:
//! the task model, the session controller's state machine, the request and
//! reply rules of the remote API, and the text helpers the views are built from.

pub mod api;
pub mod app;
pub mod config;
pub mod files;
pub mod text;
pub mod ui;
pub mod util;

pub use api::{DownloadTask, SynologyClient};
pub use app::App;
pub use config::AppConfig;
pub use util::{format_bytes, format_seconds, format_timestamp};
