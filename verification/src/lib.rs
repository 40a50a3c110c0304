//! Decision logic of a tray utility that turns a held Enter key into a
//! Control modifier: the keyboard state machine, the tray icon image, the
//! menu and window-message rules, and the start-up registry value.

pub mod icon;
pub mod keyboard;
pub mod startup;
pub mod tray;
pub mod wide;
