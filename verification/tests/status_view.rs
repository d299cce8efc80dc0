use openusage_tray::events::{EventType, ModifierFlags, NativeEvent};
use openusage_tray::status_view::{
    event_is_context_click_details, handle_status_item_view_input, should_open_from_touch_count,
    should_reset_touch_gate, StatusItemViewInputState, ViewInput, ViewResponse,
};
use openusage_tray::events::event_type_can_report_touches;

fn event(event_type: EventType, button_number: isize) -> NativeEvent {
    NativeEvent { event_type, modifier_flags: ModifierFlags::empty(), button_number, event_number: 0 }
}

#[test]
fn custom_status_view_opens_for_secondary_click_shapes() {
    assert!(event_is_context_click_details(
        EventType::RightMouseDown,
        ModifierFlags::empty(),
        0,
    ));
    assert!(event_is_context_click_details(
        EventType::LeftMouseDown,
        ModifierFlags::control(),
        0,
    ));
    assert!(event_is_context_click_details(
        EventType::LeftMouseDown,
        ModifierFlags::empty(),
        1,
    ));
    assert!(!event_is_context_click_details(
        EventType::LeftMouseDown,
        ModifierFlags::empty(),
        0,
    ));
}

#[test]
fn custom_status_view_touch_gate_opens_once_per_two_touch_sequence() {
    assert!(should_open_from_touch_count(false, 2));
    assert!(!should_open_from_touch_count(true, 2));
    assert!(!should_open_from_touch_count(false, 1));
    assert!(should_reset_touch_gate(1));
    assert!(!should_reset_touch_gate(2));
}

#[test]
fn macos_status_item_view_touch_count_queries_only_run_for_touch_capable_events() {
    assert!(!event_type_can_report_touches(EventType::LeftMouseDown));
    assert!(!event_type_can_report_touches(EventType::RightMouseDown));
    assert!(event_type_can_report_touches(EventType::Gesture));
    assert!(event_type_can_report_touches(EventType::DirectTouch));
}

#[test]
fn status_view_plain_click_toggles_panel_on_mouse_up() {
    let mut state = StatusItemViewInputState::new();
    let down = event(EventType::LeftMouseDown, 0);
    let up = event(EventType::LeftMouseUp, 0);
    assert_eq!(handle_status_item_view_input(&mut state, ViewInput::MouseDown, &down, 0), ViewResponse::Nothing);
    assert_eq!(handle_status_item_view_input(&mut state, ViewInput::MouseUp, &up, 0), ViewResponse::TogglePanel);
}

#[test]
fn status_view_context_click_swallows_following_mouse_up() {
    let mut state = StatusItemViewInputState::new();
    let down = NativeEvent { modifier_flags: ModifierFlags::control(), ..event(EventType::LeftMouseDown, 0) };
    let up = event(EventType::LeftMouseUp, 0);
    assert_eq!(handle_status_item_view_input(&mut state, ViewInput::MouseDown, &down, 0), ViewResponse::OpenMenu);
    assert!(state.suppress_next_mouse_up);
    assert_eq!(handle_status_item_view_input(&mut state, ViewInput::MouseUp, &up, 0), ViewResponse::Nothing);
    assert!(!state.suppress_next_mouse_up);
    assert_eq!(handle_status_item_view_input(&mut state, ViewInput::MouseUp, &up, 0), ViewResponse::TogglePanel);
}

#[test]
fn status_view_other_buttons_and_menu_requests() {
    let mut state = StatusItemViewInputState::new();
    assert_eq!(
        handle_status_item_view_input(&mut state, ViewInput::OtherMouseDown, &event(EventType::OtherMouseDown, 0), 0),
        ViewResponse::Nothing
    );
    assert_eq!(
        handle_status_item_view_input(&mut state, ViewInput::OtherMouseDown, &event(EventType::OtherMouseDown, 2), 0),
        ViewResponse::OpenMenu
    );
    let mut state = StatusItemViewInputState::new();
    assert_eq!(
        handle_status_item_view_input(&mut state, ViewInput::MenuForEvent, &event(EventType::RightMouseDown, 1), 0),
        ViewResponse::ProvideMenu
    );
    assert!(state.suppress_next_mouse_up);
}

#[test]
fn status_view_two_touches_open_once_until_released() {
    let mut state = StatusItemViewInputState::new();
    let touch = event(EventType::Gesture, 0);
    assert_eq!(handle_status_item_view_input(&mut state, ViewInput::Touch, &touch, 2), ViewResponse::OpenMenu);
    assert_eq!(handle_status_item_view_input(&mut state, ViewInput::Touch, &touch, 3), ViewResponse::Nothing);
    assert_eq!(handle_status_item_view_input(&mut state, ViewInput::Touch, &touch, 1), ViewResponse::Nothing);
    assert!(!state.two_touch_menu_open);
    assert_eq!(handle_status_item_view_input(&mut state, ViewInput::Touch, &touch, 2), ViewResponse::OpenMenu);
}
