//! Rules of the Dynamic Launcher portal.

pub mod desktop_entry;
pub mod dialog;
pub mod flatpak;
pub mod icon;
pub mod install;
pub mod interface;
pub mod launcher;
pub mod long_request;
pub mod lookup;
pub mod names;
pub mod options;
pub mod path;
pub mod text;
pub mod uninstall;
