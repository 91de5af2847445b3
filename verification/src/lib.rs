//! Core logic of a tray-resident reminder shell.
//!
//! The library models the tray menu, decides how a menu item's state changes
//! on a front-end command, decides what a tray click does, and keeps the
//! process alive across window-close and exit requests. A thin runtime layer
//! performs the decided effects against the actual tray and window handles.

mod text;

pub mod error;
pub mod lifecycle;
pub mod menu;
pub mod relay;
pub mod update;
