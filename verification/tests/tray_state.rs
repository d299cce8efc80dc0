use openusage_tray::event_tap::{status_item_event_tap_callback, CgEvent, CgEventFlags, CgEventType, EventTapOutcome, TrayEventTapMode};
use openusage_tray::events::{EventType, ModifierFlags, NativeEvent};
use openusage_tray::menu_guard::{
    mark_native_menu_opened, native_menu_recently_opened_for_mouse_up,
    should_skip_recent_native_menu_open, NativeMenuOpenTracker,
};
use openusage_tray::tray_events::is_secondary_mouse_button_pressed;
use openusage_tray::tray_input::{
    handle_status_button_action, handle_tray_input_overlay_input, secondary_click_poll_tick,
    status_item_menu_will_open, tray_input_overlay_collection_behavior, MenuWillOpenAction,
    OverlayInput, OverlayResponse, StatusButtonAction, StatusButtonActionState,
    TrayInputOverlayState, TraySecondaryClickPollState,
};
use openusage_tray::tray_menu::{
    log_level_item_checked, log_level_store_value, parse_stored_log_level, tray_icon_click_action,
    tray_menu_action, LogLevel, MouseButton, MouseButtonState, TrayIconClickAction, TrayMenuAction,
};

fn native(event_type: EventType, button_number: isize, event_number: isize) -> NativeEvent {
    NativeEvent { event_type, modifier_flags: ModifierFlags::empty(), button_number, event_number }
}

#[test]
fn native_menu_guard_debounces_open_requests() {
    let mut tracker = NativeMenuOpenTracker::new();
    assert!(!should_skip_recent_native_menu_open(&mut tracker, 1_000));
    assert_eq!(tracker.last_opened_at, Some(1_000));
    assert!(should_skip_recent_native_menu_open(&mut tracker, 1_199));
    assert_eq!(tracker.last_opened_at, Some(1_000));
    assert!(!should_skip_recent_native_menu_open(&mut tracker, 1_200));
    assert_eq!(tracker.last_opened_at, Some(1_200));
}

#[test]
fn native_menu_guard_claims_following_mouse_up() {
    let mut tracker = NativeMenuOpenTracker::new();
    assert!(!native_menu_recently_opened_for_mouse_up(&tracker, 5));
    mark_native_menu_opened(&mut tracker, 100);
    assert!(native_menu_recently_opened_for_mouse_up(&tracker, 799));
    assert!(!native_menu_recently_opened_for_mouse_up(&tracker, 800));
    assert!(!native_menu_recently_opened_for_mouse_up(&tracker, 50));
}

#[test]
fn status_button_action_routes_clicks() {
    let tracker = NativeMenuOpenTracker::new();
    let mut state = StatusButtonActionState::new();
    assert_eq!(
        handle_status_button_action(&mut state, &native(EventType::LeftMouseDown, 0, 1), 0, &tracker, 0),
        StatusButtonAction::Nothing
    );
    assert_eq!(
        handle_status_button_action(&mut state, &native(EventType::LeftMouseUp, 0, 2), 0, &tracker, 0),
        StatusButtonAction::TogglePanel
    );
    assert_eq!(
        handle_status_button_action(&mut state, &native(EventType::RightMouseDown, 1, 3), 0, &tracker, 0),
        StatusButtonAction::ShowMenu
    );
    assert_eq!(state.last_event_number, 3);
    assert_eq!(
        handle_status_button_action(&mut state, &native(EventType::RightMouseDown, 1, 3), 0, &tracker, 0),
        StatusButtonAction::Nothing
    );
    assert_eq!(
        handle_status_button_action(&mut state, &native(EventType::RightMouseUp, 1, 0), 0, &tracker, 0),
        StatusButtonAction::ShowMenu
    );
    assert_eq!(
        handle_status_button_action(&mut state, &native(EventType::RightMouseUp, 1, 0), 0, &tracker, 0),
        StatusButtonAction::ShowMenu
    );
}

#[test]
fn status_button_action_opens_for_two_touches_once() {
    let tracker = NativeMenuOpenTracker::new();
    let mut state = StatusButtonActionState::new();
    let down = native(EventType::LeftMouseDown, 0, 9);
    assert_eq!(handle_status_button_action(&mut state, &down, 2, &tracker, 0), StatusButtonAction::ShowMenu);
    assert_eq!(handle_status_button_action(&mut state, &down, 2, &tracker, 0), StatusButtonAction::Nothing);
    assert_eq!(handle_status_button_action(&mut state, &down, 0, &tracker, 0), StatusButtonAction::Nothing);
    assert_eq!(handle_status_button_action(&mut state, &down, 2, &tracker, 0), StatusButtonAction::ShowMenu);
}

#[test]
fn status_button_ignores_mouse_up_right_after_menu() {
    let mut tracker = NativeMenuOpenTracker::new();
    mark_native_menu_opened(&mut tracker, 1_000);
    let mut state = StatusButtonActionState::new();
    assert_eq!(
        handle_status_button_action(&mut state, &native(EventType::LeftMouseUp, 0, 1), 0, &tracker, 1_100),
        StatusButtonAction::Nothing
    );
    assert_eq!(
        handle_status_button_action(&mut state, &native(EventType::LeftMouseUp, 0, 2), 0, &tracker, 1_700),
        StatusButtonAction::TogglePanel
    );
}

#[test]
fn system_menu_gives_way_to_panel_for_primary_clicks() {
    let mut tracker = NativeMenuOpenTracker::new();
    assert_eq!(
        status_item_menu_will_open(&mut tracker, Some(native(EventType::LeftMouseDown, 0, 1)), 40),
        MenuWillOpenAction::CancelAndTogglePanel
    );
    assert_eq!(tracker.last_opened_at, Some(40));
    assert_eq!(
        status_item_menu_will_open(&mut tracker, Some(native(EventType::RightMouseDown, 1, 1)), 50),
        MenuWillOpenAction::KeepMenu
    );
    assert_eq!(status_item_menu_will_open(&mut tracker, None, 60), MenuWillOpenAction::KeepMenu);
    assert_eq!(tracker.last_opened_at, Some(60));
}

#[test]
fn overlay_routes_events() {
    let tracker = NativeMenuOpenTracker::new();
    let mut state = TrayInputOverlayState::new();
    let plain_up = native(EventType::LeftMouseUp, 0, 0);
    assert_eq!(
        handle_tray_input_overlay_input(&mut state, OverlayInput::MouseUp, &plain_up, 0, 0, &tracker, 0),
        OverlayResponse::TogglePanel
    );
    assert_eq!(
        handle_tray_input_overlay_input(&mut state, OverlayInput::RightMouseDown, &native(EventType::RightMouseDown, 1, 0), 0, 0, &tracker, 0),
        OverlayResponse::OpenMenuForEvent
    );
    assert_eq!(
        handle_tray_input_overlay_input(&mut state, OverlayInput::MouseUp, &plain_up, 0, 0, &tracker, 0),
        OverlayResponse::Nothing
    );
    let touch = native(EventType::Gesture, 0, 0);
    assert_eq!(
        handle_tray_input_overlay_input(&mut state, OverlayInput::Touch, &touch, 0, 2, &tracker, 0),
        OverlayResponse::OpenMenu
    );
    assert_eq!(
        handle_tray_input_overlay_input(&mut state, OverlayInput::Touch, &touch, 0, 2, &tracker, 0),
        OverlayResponse::Nothing
    );
}

#[test]
fn secondary_poll_opens_on_press_edges() {
    let mut state = TraySecondaryClickPollState::new();
    assert!(secondary_click_poll_tick(&mut state, true, true));
    assert!(!secondary_click_poll_tick(&mut state, true, true));
    assert!(!secondary_click_poll_tick(&mut state, false, true));
    assert!(!secondary_click_poll_tick(&mut state, true, false));
    assert!(!secondary_click_poll_tick(&mut state, false, true));
    assert!(secondary_click_poll_tick(&mut state, true, true));
    assert!(is_secondary_mouse_button_pressed(0, true, false));
    assert!(!is_secondary_mouse_button_pressed(1, false, false));
}

#[test]
fn event_tap_callback_outcomes() {
    let plain = CgEvent { flags: CgEventFlags::empty(), button_number: 0 };
    let right = CgEvent { flags: CgEventFlags::empty(), button_number: 1 };
    assert_eq!(
        status_item_event_tap_callback(TrayEventTapMode::Active, CgEventType::RightMouseDown, &right, true),
        EventTapOutcome::OpenMenuAndSwallow
    );
    assert_eq!(
        status_item_event_tap_callback(TrayEventTapMode::Active, CgEventType::RightMouseDown, &right, false),
        EventTapOutcome::PassThrough
    );
    assert_eq!(
        status_item_event_tap_callback(TrayEventTapMode::ListenOnly, CgEventType::RightMouseUp, &right, true),
        EventTapOutcome::OpenMenu
    );
    assert_eq!(
        status_item_event_tap_callback(TrayEventTapMode::ListenOnly, CgEventType::RightMouseDown, &right, true),
        EventTapOutcome::PassThrough
    );
    assert_eq!(
        status_item_event_tap_callback(TrayEventTapMode::Active, CgEventType::LeftMouseDown, &plain, true),
        EventTapOutcome::PassThrough
    );
    assert_eq!(
        status_item_event_tap_callback(TrayEventTapMode::Active, CgEventType::TapDisabledByTimeout, &right, true),
        EventTapOutcome::PassThrough
    );
}

#[test]
fn tray_menu_items_and_log_levels() {
    assert_eq!(tray_menu_action("show_stats"), TrayMenuAction::ShowStats);
    assert_eq!(tray_menu_action("go_to_settings"), TrayMenuAction::GoToSettings);
    assert_eq!(tray_menu_action("about"), TrayMenuAction::About);
    assert_eq!(tray_menu_action("quit"), TrayMenuAction::Quit);
    assert_eq!(tray_menu_action("log_debug"), TrayMenuAction::SetLogLevel(LogLevel::Debug));
    assert_eq!(tray_menu_action("copy_log_path"), TrayMenuAction::CopyLogPath);
    assert_eq!(tray_menu_action("log_off"), TrayMenuAction::Unknown);
    assert_eq!(parse_stored_log_level(Some("trace")), LogLevel::Trace);
    assert_eq!(parse_stored_log_level(Some("warn")), LogLevel::Warn);
    assert_eq!(parse_stored_log_level(Some("verbose")), LogLevel::Error);
    assert_eq!(parse_stored_log_level(None), LogLevel::Error);
    assert_eq!(log_level_store_value(LogLevel::Info), "info");
    assert_eq!(log_level_store_value(LogLevel::Off), "off");
    assert_eq!(parse_stored_log_level(Some(log_level_store_value(LogLevel::Debug))), LogLevel::Debug);
    assert!(log_level_item_checked(LogLevel::Warn, LogLevel::Warn));
    assert!(!log_level_item_checked(LogLevel::Warn, LogLevel::Info));
}

#[test]
fn tray_icon_clicks() {
    let mut tracker = NativeMenuOpenTracker::new();
    assert_eq!(
        tray_icon_click_action(MouseButton::Left, MouseButtonState::Up, true, &tracker, 10),
        TrayIconClickAction::TogglePanel
    );
    assert_eq!(
        tray_icon_click_action(MouseButton::Left, MouseButtonState::Down, true, &tracker, 10),
        TrayIconClickAction::Ignore
    );
    mark_native_menu_opened(&mut tracker, 100);
    assert_eq!(
        tray_icon_click_action(MouseButton::Left, MouseButtonState::Up, true, &tracker, 300),
        TrayIconClickAction::Ignore
    );
    assert_eq!(
        tray_icon_click_action(MouseButton::Left, MouseButtonState::Up, false, &tracker, 300),
        TrayIconClickAction::TogglePanel
    );
    assert_eq!(
        tray_icon_click_action(MouseButton::Right, MouseButtonState::Down, true, &tracker, 300),
        TrayIconClickAction::ShowMenu
    );
    assert_eq!(
        tray_icon_click_action(MouseButton::Right, MouseButtonState::Down, false, &tracker, 300),
        TrayIconClickAction::Ignore
    );
    assert_eq!(
        tray_icon_click_action(MouseButton::Middle, MouseButtonState::Up, true, &tracker, 300),
        TrayIconClickAction::Ignore
    );
}

#[test]
fn overlay_window_collection_behavior_bits() {
    assert_eq!(tray_input_overlay_collection_behavior(), 0x151);
}
