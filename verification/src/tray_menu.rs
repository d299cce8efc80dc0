//! The tray menu: the stored log level, what each menu item does, and what
//! clicks on the tray icon itself do.

use vstd::prelude::*;
use crate::menu_guard::{
    NativeMenuOpenTracker, RECENT_NATIVE_MENU_OPEN_MOUSE_UP_MILLIS, within_window,
    native_menu_recently_opened_for_mouse_up,
};
use crate::text::str_eq;

verus! {

/// The settings key under which the log level is stored.
pub const LOG_LEVEL_STORE_KEY: &'static str = "logLevel";

/// A log level filter.
#[derive(Clone, Copy, Debug, PartialEq, Eq, Structural)]
pub enum LogLevel {
    Off,
    Error,
    Warn,
    Info,
    Debug,
    Trace,
}

/// The level a stored setting names; anything else, or nothing stored,
/// means the least verbose level, `Error`.
pub open spec fn stored_log_level(value: Option<Seq<char>>) -> LogLevel {
    match value {
        Some(s) => if s == "error"@ {
            LogLevel::Error
        } else if s == "warn"@ {
            LogLevel::Warn
        } else if s == "info"@ {
            LogLevel::Info
        } else if s == "debug"@ {
            LogLevel::Debug
        } else if s == "trace"@ {
            LogLevel::Trace
        } else {
            LogLevel::Error
        },
        None => LogLevel::Error,
    }
}

/// The log level of a stored setting, `None` when none could be read.
pub fn parse_stored_log_level(value: Option<&str>) -> (level: LogLevel)
    ensures
        level == stored_log_level(
            match value {
                Some(s) => Some(s@),
                None => None,
            },
        ),
{
    match value {
        Some(s) => {
            if str_eq(s, "error") {
                LogLevel::Error
            } else if str_eq(s, "warn") {
                LogLevel::Warn
            } else if str_eq(s, "info") {
                LogLevel::Info
            } else if str_eq(s, "debug") {
                LogLevel::Debug
            } else if str_eq(s, "trace") {
                LogLevel::Trace
            } else {
                LogLevel::Error
            }
        },
        None => LogLevel::Error,
    }
}

/// The setting stored for a log level.
pub open spec fn log_level_setting(level: LogLevel) -> Seq<char> {
    match level {
        LogLevel::Error => "error"@,
        LogLevel::Warn => "warn"@,
        LogLevel::Info => "info"@,
        LogLevel::Debug => "debug"@,
        LogLevel::Trace => "trace"@,
        LogLevel::Off => "off"@,
    }
}

/// The string stored for `level`.
pub fn log_level_store_value(level: LogLevel) -> (value: &'static str)
    ensures
        value@ == log_level_setting(level),
{
    match level {
        LogLevel::Error => "error",
        LogLevel::Warn => "warn",
        LogLevel::Info => "info",
        LogLevel::Debug => "debug",
        LogLevel::Trace => "trace",
        LogLevel::Off => "off",
    }
}

/// What choosing a tray menu item does.
#[derive(Clone, Copy, Debug, PartialEq, Eq, Structural)]
pub enum TrayMenuAction {
    ShowStats,
    GoToSettings,
    About,
    Quit,
    SetLogLevel(LogLevel),
    CopyLogPath,
    Unknown,
}

/// The action of the menu item with id `id`.
pub open spec fn menu_action(id: Seq<char>) -> TrayMenuAction {
    if id == "show_stats"@ {
        TrayMenuAction::ShowStats
    } else if id == "go_to_settings"@ {
        TrayMenuAction::GoToSettings
    } else if id == "about"@ {
        TrayMenuAction::About
    } else if id == "quit"@ {
        TrayMenuAction::Quit
    } else if id == "log_error"@ {
        TrayMenuAction::SetLogLevel(LogLevel::Error)
    } else if id == "log_warn"@ {
        TrayMenuAction::SetLogLevel(LogLevel::Warn)
    } else if id == "log_info"@ {
        TrayMenuAction::SetLogLevel(LogLevel::Info)
    } else if id == "log_debug"@ {
        TrayMenuAction::SetLogLevel(LogLevel::Debug)
    } else if id == "log_trace"@ {
        TrayMenuAction::SetLogLevel(LogLevel::Trace)
    } else if id == "copy_log_path"@ {
        TrayMenuAction::CopyLogPath
    } else {
        TrayMenuAction::Unknown
    }
}

/// What the tray menu item `id` does.
pub fn tray_menu_action(id: &str) -> (action: TrayMenuAction)
    ensures
        action == menu_action(id@),
{
    if str_eq(id, "show_stats") {
        TrayMenuAction::ShowStats
    } else if str_eq(id, "go_to_settings") {
        TrayMenuAction::GoToSettings
    } else if str_eq(id, "about") {
        TrayMenuAction::About
    } else if str_eq(id, "quit") {
        TrayMenuAction::Quit
    } else if str_eq(id, "log_error") {
        TrayMenuAction::SetLogLevel(LogLevel::Error)
    } else if str_eq(id, "log_warn") {
        TrayMenuAction::SetLogLevel(LogLevel::Warn)
    } else if str_eq(id, "log_info") {
        TrayMenuAction::SetLogLevel(LogLevel::Info)
    } else if str_eq(id, "log_debug") {
        TrayMenuAction::SetLogLevel(LogLevel::Debug)
    } else if str_eq(id, "log_trace") {
        TrayMenuAction::SetLogLevel(LogLevel::Trace)
    } else if str_eq(id, "copy_log_path") {
        TrayMenuAction::CopyLogPath
    } else {
        TrayMenuAction::Unknown
    }
}

/// Whether the log-level item for `item_level` is checked while
/// `current_level` is selected: exactly the selected level's item is.
pub fn log_level_item_checked(item_level: LogLevel, current_level: LogLevel) -> (checked: bool)
    ensures
        checked == (item_level == current_level),
{
    item_level == current_level
}

/// A mouse button of a tray icon event.
#[derive(Clone, Copy, Debug, PartialEq, Eq, Structural)]
pub enum MouseButton {
    Left,
    Right,
    Middle,
}

/// The edge of a tray icon click.
#[derive(Clone, Copy, Debug, PartialEq, Eq, Structural)]
pub enum MouseButtonState {
    Up,
    Down,
}

/// Whether a tray icon click pops up the menu: a right button down on
/// macOS, a right button up elsewhere.
pub fn should_open_tray_menu(button: MouseButton, button_state: MouseButtonState, macos: bool) -> (r: bool)
    ensures
        r == (button == MouseButton::Right && button_state == if macos {
            MouseButtonState::Down
        } else {
            MouseButtonState::Up
        }),
{
    if macos {
        button == MouseButton::Right && button_state == MouseButtonState::Down
    } else {
        button == MouseButton::Right && button_state == MouseButtonState::Up
    }
}

/// What a click on the tray icon does.
#[derive(Clone, Copy, Debug, PartialEq, Eq, Structural)]
pub enum TrayIconClickAction {
    Ignore,
    TogglePanel,
    ShowMenu,
}

/// A left button up toggles the panel, except on macOS right after the
/// native menu opened; a right click shows the menu when
/// `should_open_tray_menu` says so; nothing else does anything.
pub open spec fn icon_click_action(
    button: MouseButton,
    button_state: MouseButtonState,
    macos: bool,
    native_menu_recently_opened: bool,
) -> TrayIconClickAction {
    match button {
        MouseButton::Left => if button_state != MouseButtonState::Up {
            TrayIconClickAction::Ignore
        } else if macos && native_menu_recently_opened {
            TrayIconClickAction::Ignore
        } else {
            TrayIconClickAction::TogglePanel
        },
        MouseButton::Right => if button_state == if macos {
            MouseButtonState::Down
        } else {
            MouseButtonState::Up
        } {
            TrayIconClickAction::ShowMenu
        } else {
            TrayIconClickAction::Ignore
        },
        MouseButton::Middle => TrayIconClickAction::Ignore,
    }
}

/// What a click on the tray icon at `now` does.
pub fn tray_icon_click_action(
    button: MouseButton,
    button_state: MouseButtonState,
    macos: bool,
    tracker: &NativeMenuOpenTracker,
    now: u64,
) -> (action: TrayIconClickAction)
    ensures
        action == icon_click_action(
            button,
            button_state,
            macos,
            within_window(tracker.last_opened_at, now, RECENT_NATIVE_MENU_OPEN_MOUSE_UP_MILLIS),
        ),
{
    match button {
        MouseButton::Left => {
            if button_state != MouseButtonState::Up {
                return TrayIconClickAction::Ignore;
            }
            if macos && native_menu_recently_opened_for_mouse_up(tracker, now) {
                return TrayIconClickAction::Ignore;
            }
            TrayIconClickAction::TogglePanel
        },
        MouseButton::Right => {
            if should_open_tray_menu(button, button_state, macos) {
                TrayIconClickAction::ShowMenu
            } else {
                TrayIconClickAction::Ignore
            }
        },
        MouseButton::Middle => TrayIconClickAction::Ignore,
    }
}

/// Every level but `Off` survives being stored and read back.
pub proof fn lemma_log_level_round_trip(level: LogLevel)
    requires
        level != LogLevel::Off,
    ensures
        stored_log_level(Some(log_level_setting(level))) == level,
{
    reveal_strlit("error");
    reveal_strlit("warn");
    reveal_strlit("info");
    reveal_strlit("debug");
    reveal_strlit("trace");
    assert("error"@[0] == 'e' && "warn"@[0] == 'w' && "info"@[0] == 'i' && "debug"@[0] == 'd'
        && "trace"@[0] == 't');
}

/// Choosing a log-level item selects that item's level.
pub proof fn lemma_log_menu_items_set_their_level(level: LogLevel)
    requires
        level != LogLevel::Off,
    ensures
        menu_action("log_"@ + log_level_setting(level)) == TrayMenuAction::SetLogLevel(level),
{
    reveal_strlit("log_");
    reveal_strlit("error");
    reveal_strlit("warn");
    reveal_strlit("info");
    reveal_strlit("debug");
    reveal_strlit("trace");
    reveal_strlit("show_stats");
    reveal_strlit("go_to_settings");
    reveal_strlit("about");
    reveal_strlit("quit");
    reveal_strlit("log_error");
    reveal_strlit("log_warn");
    reveal_strlit("log_info");
    reveal_strlit("log_debug");
    reveal_strlit("log_trace");
    reveal_strlit("copy_log_path");
    assert("show_stats"@[0] == 's' && "go_to_settings"@[0] == 'g' && "about"@[0] == 'a'
        && "quit"@[0] == 'q' && "copy_log_path"@[0] == 'c' && "log_error"@[0] == 'l');
    assert("log_error"@[4] == 'e' && "log_warn"@[4] == 'w' && "log_info"@[4] == 'i'
        && "log_debug"@[4] == 'd' && "log_trace"@[4] == 't');
    assert("log_"@ + "error"@ =~= "log_error"@);
    assert("log_"@ + "warn"@ =~= "log_warn"@);
    assert("log_"@ + "info"@ =~= "log_info"@);
    assert("log_"@ + "debug"@ =~= "log_debug"@);
    assert("log_"@ + "trace"@ =~= "log_trace"@);
}

} // verus!
