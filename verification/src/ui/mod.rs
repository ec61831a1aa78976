//! State and decisions of the terminal user interface.

pub mod models;
pub mod browser;
pub mod key_handler;
pub mod rustored;
pub mod restore_browser;
pub mod layouts;
pub mod renderer;
pub mod components;
