//! The decision core of the Onyx desktop shell.
//!
//! The shell hosts a remote web application inside native windows. This crate
//! holds everything the shell decides: how the configuration is validated and
//! kept, which shell action a shortcut, menu item or tray item triggers, what
//! each action does to the windows, how windows and menus are laid out, and
//! when the title-bar script is injected again. The host program performs what
//! these functions return; it does no deciding of its own.

pub mod action;
pub mod config;
pub mod effects;
pub mod injection;
pub mod menu;
pub mod opener;
pub mod paths;
pub mod platform;
pub mod router;
pub mod shortcuts;
pub mod text;
pub mod tray;
pub mod weburl;
pub mod window;

pub use config::{default_window_title, AppConfig};
pub use paths::get_config_path;
