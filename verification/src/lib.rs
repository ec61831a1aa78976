//! Verified core of rustored: configuration models, command and query
//! construction, and the key-driven state machine of the snapshot browser.

pub mod text;
pub mod backup;
pub mod cli;
pub mod config;
pub mod datastore;
pub mod postgres;
pub mod restore;
pub mod targets;
pub mod tui;
pub mod ui;
