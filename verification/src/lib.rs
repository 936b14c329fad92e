//! Houston: the verified core of a terminal dashboard for GitHub Actions.
//!
//! The library holds the panel model, the layout tree and the window
//! manager that decides which panels are shown and which one has focus.

pub mod text;
pub mod api;
pub mod doc;
pub mod github;
pub mod inputs;
pub mod dialog;
pub mod log_view;
pub mod app_state;
pub mod navigation;
pub mod dispatch;
pub mod app_laws;
pub mod keys;
pub mod panel;
pub mod panel_set;
pub mod layout;
pub mod window_manager;
pub mod screen;
pub mod format;
pub mod status;
pub mod chrome;
pub mod lists;
pub mod runs_view;
pub mod log_lines;
pub mod deployments_view;
pub mod pull_requests_view;
pub mod dialog_view;
pub mod config;
pub mod cycle;
