//! The logic of a menu-bar launcher for the Reachy Mini daemon.

pub mod api;
pub mod commands;
pub mod daemon;
pub mod hf_auth;
pub mod logs;
pub mod paths;
pub mod router;
pub mod state;
pub mod text;
pub mod tray_icon;
pub mod tray_menu;
pub mod usb;
