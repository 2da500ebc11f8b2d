//! Tray menu controller: builds the tray icon's context menu from the
//! application's shared state, maps menu clicks to actions, and keeps the
//! menu in step with pin, hotkey and refresh notifications.
pub mod events;
pub mod menu;
pub mod controller;
pub mod laws;
