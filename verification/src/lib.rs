//! Core logic of a small tray-resident desktop shell: an auto-launch
//! registrar, a single-instance notification window manager, a tray menu
//! dispatcher, and the main-window visibility policy.

pub mod autolaunch;
pub mod notification;
pub mod shell;
pub mod tray;
pub mod visibility;
