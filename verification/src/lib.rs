//! Decision logic behind the OpenUsage menu-bar item on macOS: which mouse,
//! trackpad and HID input opens the context menu, which toggles the panel,
//! and the small state machines that debounce those decisions.

pub mod clock;
pub mod event_tap;
pub mod events;
pub mod gestures;
pub mod hid;
pub mod icon;
pub mod menu_guard;
pub mod monitor;
pub mod multitouch;
pub mod status_view;
pub mod text;
pub mod trackpad;
pub mod tray_events;
pub mod tray_input;
pub mod tray_menu;
