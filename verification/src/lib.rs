//! The verified core of zter, a GTK terminal emulator: settings resolution
//! and validation, startup configuration, and the terminal window's
//! decisions.
pub mod binary64;
pub mod text;
pub mod path;
pub mod json;
pub mod settings;
pub mod resolution;
pub mod config;
pub mod identity;
pub mod cli;
pub mod keys;
pub mod key_bindings;
pub mod tabs;
pub mod terminal;
pub mod settings_form;
pub mod theme;
pub mod stylesheet;
pub mod messages;
