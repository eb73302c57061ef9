//! Verified core of a small Windows utility that forces the desktop
//! wallpaper through the policy registry keys.

pub mod text;
pub mod wallpaper_style;
pub mod command_line;
pub mod i18n;
pub mod apply_flow;
pub mod registry;
pub mod broker;
pub mod picker;
pub mod layout;
pub mod theme;
pub mod preview;
pub mod files;
