//! Which AppKit events on the status item open the context menu, which are
//! plain primary clicks, and the event masks the status item listens with.

use vstd::prelude::*;
use crate::events::{EventMask, EventType, ModifierFlags, NativeEvent, has_control, flags_have_control};

verus! {

/// A secondary-click shape: a right or other mouse button, or a left button
/// with control held or reported as button one.
pub open spec fn is_context_click(event_type: EventType, modifier_flags: ModifierFlags, button_number: isize) -> bool {
    event_type == EventType::RightMouseDown || event_type == EventType::RightMouseUp || event_type
        == EventType::OtherMouseDown || event_type == EventType::OtherMouseUp || ((event_type
        == EventType::LeftMouseDown || event_type == EventType::LeftMouseUp) && (has_control(
        modifier_flags,
    ) || button_number == 1))
}

/// An event that opens the menu from the native status item: a
/// secondary-click shape, or any system-defined, gesture, pressure or direct
/// touch event.
pub open spec fn opens_from_native_event(event_type: EventType, modifier_flags: ModifierFlags, button_number: isize) -> bool {
    is_context_click(event_type, modifier_flags, button_number) || event_type
        == EventType::SystemDefined || event_type == EventType::Gesture || event_type
        == EventType::BeginGesture || event_type == EventType::EndGesture || event_type
        == EventType::Pressure || event_type == EventType::DirectTouch
}

/// Whether an event of this shape opens the menu from the native status item.
pub fn should_open_tray_menu_from_native_event_details(
    event_type: EventType,
    modifier_flags: ModifierFlags,
    button_number: isize,
) -> (r: bool)
    ensures
        r == opens_from_native_event(event_type, modifier_flags, button_number),
{
    let control = flags_have_control(modifier_flags);
    event_type == EventType::RightMouseDown || event_type == EventType::RightMouseUp || event_type
        == EventType::OtherMouseDown || event_type == EventType::OtherMouseUp || event_type
        == EventType::SystemDefined || event_type == EventType::Gesture || event_type
        == EventType::BeginGesture || event_type == EventType::EndGesture || event_type
        == EventType::Pressure || event_type == EventType::DirectTouch || (event_type
        == EventType::LeftMouseDown && (control || button_number == 1)) || (event_type
        == EventType::LeftMouseUp && (control || button_number == 1))
}

/// The same, for an event that reports button zero.
pub fn should_open_tray_menu_from_native_event_type(
    event_type: EventType,
    modifier_flags: ModifierFlags,
) -> (r: bool)
    ensures
        r == opens_from_native_event(event_type, modifier_flags, 0),
{
    should_open_tray_menu_from_native_event_details(event_type, modifier_flags, 0)
}

/// AppKit's pressed-mouse-buttons bitmask has the secondary button.
pub open spec fn secondary_pressed(pressed_mouse_buttons: usize) -> bool {
    pressed_mouse_buttons & 2 != 0
}

/// Whether AppKit reports the secondary mouse button as pressed.
pub fn is_appkit_secondary_mouse_button_pressed(pressed_mouse_buttons: usize) -> (r: bool)
    ensures
        r == secondary_pressed(pressed_mouse_buttons),
{
    pressed_mouse_buttons & 2 != 0
}

/// The secondary button is pressed by any of the three readings: AppKit's
/// pressed-button mask, or CoreGraphics' combined-session or HID-system
/// state of the right button.
pub fn is_secondary_mouse_button_pressed(
    pressed_mouse_buttons: usize,
    combined_session_right_button_down: bool,
    hid_system_right_button_down: bool,
) -> (r: bool)
    ensures
        r == (secondary_pressed(pressed_mouse_buttons) || combined_session_right_button_down
            || hid_system_right_button_down),
{
    is_appkit_secondary_mouse_button_pressed(pressed_mouse_buttons)
        || combined_session_right_button_down || hid_system_right_button_down
}

/// A trackpad event (system-defined, gesture, pressure, direct touch) while
/// the secondary button is pressed.
pub open spec fn opens_from_trackpad_event(event_type: EventType, pressed_mouse_buttons: usize) -> bool {
    secondary_pressed(pressed_mouse_buttons) && (event_type == EventType::SystemDefined
        || event_type == EventType::Gesture || event_type == EventType::BeginGesture || event_type
        == EventType::EndGesture || event_type == EventType::Pressure || event_type
        == EventType::DirectTouch)
}

/// Whether a trackpad event opens the menu, given the pressed buttons.
pub fn should_open_tray_menu_from_trackpad_event_type(
    event_type: EventType,
    pressed_mouse_buttons: usize,
) -> (r: bool)
    ensures
        r == opens_from_trackpad_event(event_type, pressed_mouse_buttons),
{
    is_appkit_secondary_mouse_button_pressed(pressed_mouse_buttons) && (event_type
        == EventType::SystemDefined || event_type == EventType::Gesture || event_type
        == EventType::BeginGesture || event_type == EventType::EndGesture || event_type
        == EventType::Pressure || event_type == EventType::DirectTouch)
}

/// Whether `event` opens the menu from the native status item, with AppKit
/// reporting `pressed_mouse_buttons`.
pub fn should_open_tray_menu_from_native_event(event: &NativeEvent, pressed_mouse_buttons: usize) -> (r: bool)
    ensures
        r == (opens_from_native_event(event.event_type, event.modifier_flags, event.button_number)
            || opens_from_trackpad_event(event.event_type, pressed_mouse_buttons)),
{
    should_open_tray_menu_from_native_event_details(
        event.event_type,
        event.modifier_flags,
        event.button_number,
    ) || should_open_tray_menu_from_trackpad_event_type(event.event_type, pressed_mouse_buttons)
}

/// Whether a status-button action of this shape opens the menu: a
/// secondary-click shape.
pub fn should_open_tray_menu_from_status_button_action_event_details(
    event_type: EventType,
    modifier_flags: ModifierFlags,
    button_number: isize,
) -> (r: bool)
    ensures
        r == is_context_click(event_type, modifier_flags, button_number),
{
    let control = flags_have_control(modifier_flags);
    event_type == EventType::RightMouseDown || event_type == EventType::RightMouseUp || event_type
        == EventType::OtherMouseDown || event_type == EventType::OtherMouseUp || ((event_type
        == EventType::LeftMouseDown || event_type == EventType::LeftMouseUp) && (control
        || button_number == 1))
}

/// Whether the event behind a status-button action opens the menu.
pub fn should_open_tray_menu_from_status_button_action_event(event: &NativeEvent) -> (r: bool)
    ensures
        r == is_context_click(event.event_type, event.modifier_flags, event.button_number),
{
    should_open_tray_menu_from_status_button_action_event_details(
        event.event_type,
        event.modifier_flags,
        event.button_number,
    )
}

/// A plain primary click: left button down or up, button zero, no control.
pub open spec fn is_plain_primary_click(event_type: EventType, modifier_flags: ModifierFlags, button_number: isize) -> bool {
    (event_type == EventType::LeftMouseDown || event_type == EventType::LeftMouseUp)
        && button_number == 0 && !has_control(modifier_flags)
}

/// Whether the status button handles this event as a primary click.
pub fn should_handle_primary_status_item_click_details(
    event_type: EventType,
    modifier_flags: ModifierFlags,
    button_number: isize,
) -> (r: bool)
    ensures
        r == is_plain_primary_click(event_type, modifier_flags, button_number),
{
    (event_type == EventType::LeftMouseDown || event_type == EventType::LeftMouseUp)
        && button_number == 0 && !flags_have_control(modifier_flags)
}

/// Whether the status button handles `event` as a primary click.
pub fn should_handle_primary_status_item_click(event: &NativeEvent) -> (r: bool)
    ensures
        r == is_plain_primary_click(event.event_type, event.modifier_flags, event.button_number),
{
    should_handle_primary_status_item_click_details(
        event.event_type,
        event.modifier_flags,
        event.button_number,
    )
}

/// Whether the system status menu, as it opens for this event, is cancelled
/// in favour of the panel: for plain primary clicks only.
pub fn should_cancel_status_item_system_menu_for_primary_click_details(
    event_type: EventType,
    modifier_flags: ModifierFlags,
    button_number: isize,
) -> (r: bool)
    ensures
        r == is_plain_primary_click(event_type, modifier_flags, button_number),
{
    (event_type == EventType::LeftMouseDown || event_type == EventType::LeftMouseUp)
        && button_number == 0 && !flags_have_control(modifier_flags)
}

/// Whether the system status menu is cancelled for `event`.
pub fn should_cancel_status_item_system_menu_for_primary_click(event: &NativeEvent) -> (r: bool)
    ensures
        r == is_plain_primary_click(event.event_type, event.modifier_flags, event.button_number),
{
    should_cancel_status_item_system_menu_for_primary_click_details(
        event.event_type,
        event.modifier_flags,
        event.button_number,
    )
}

/// What a primary click on the status button does.
#[derive(Clone, Copy, Debug, PartialEq, Eq, Structural)]
pub enum PrimaryStatusItemClickAction {
    Ignore,
    TogglePanel,
    PassThrough,
}

/// The action of a click: anything but a plain primary click passes through;
/// a plain primary click is ignored right after the native menu opened, and
/// otherwise toggles the panel on mouse up and is ignored on mouse down.
pub open spec fn primary_click_action(
    event_type: EventType,
    modifier_flags: ModifierFlags,
    button_number: isize,
    native_menu_recently_opened: bool,
) -> PrimaryStatusItemClickAction {
    if !is_plain_primary_click(event_type, modifier_flags, button_number) {
        PrimaryStatusItemClickAction::PassThrough
    } else if native_menu_recently_opened {
        PrimaryStatusItemClickAction::Ignore
    } else if event_type == EventType::LeftMouseUp {
        PrimaryStatusItemClickAction::TogglePanel
    } else {
        PrimaryStatusItemClickAction::Ignore
    }
}

/// The action of a click of this shape.
pub fn primary_status_item_click_action_details(
    event_type: EventType,
    modifier_flags: ModifierFlags,
    button_number: isize,
    native_menu_recently_opened: bool,
) -> (action: PrimaryStatusItemClickAction)
    ensures
        action == primary_click_action(
            event_type,
            modifier_flags,
            button_number,
            native_menu_recently_opened,
        ),
{
    if !should_handle_primary_status_item_click_details(event_type, modifier_flags, button_number) {
        return PrimaryStatusItemClickAction::PassThrough;
    }
    if native_menu_recently_opened {
        return PrimaryStatusItemClickAction::Ignore;
    }
    if event_type == EventType::LeftMouseUp {
        return PrimaryStatusItemClickAction::TogglePanel;
    }
    PrimaryStatusItemClickAction::Ignore
}

/// The action of a click on the status button.
pub fn primary_status_item_click_action(
    event: &NativeEvent,
    native_menu_recently_opened: bool,
) -> (action: PrimaryStatusItemClickAction)
    ensures
        action == primary_click_action(
            event.event_type,
            event.modifier_flags,
            event.button_number,
            native_menu_recently_opened,
        ),
{
    primary_status_item_click_action_details(
        event.event_type,
        event.modifier_flags,
        event.button_number,
        native_menu_recently_opened,
    )
}

/// A second touch opens the menu, once per touch sequence.
pub fn should_open_tray_menu_from_touch_count(menu_open_for_current_touch: bool, touch_count: usize) -> (r: bool)
    ensures
        r == (!menu_open_for_current_touch && touch_count >= 2),
{
    !menu_open_for_current_touch && touch_count >= 2
}

/// Fewer than two touches end the touch sequence.
pub fn should_reset_touch_menu_gate(touch_count: usize) -> (r: bool)
    ensures
        r == (touch_count < 2),
{
    touch_count < 2
}

/// The secondary button went down since the last poll, with the cursor on
/// the status item.
pub fn should_open_tray_menu_from_polled_button_state(
    secondary_button_was_down: bool,
    secondary_button_is_down: bool,
    cursor_inside_status_window: bool,
) -> (r: bool)
    ensures
        r == (!secondary_button_was_down && secondary_button_is_down && cursor_inside_status_window),
{
    !secondary_button_was_down && secondary_button_is_down && cursor_inside_status_window
}

/// The events the status button sends its action on: every mouse down and up.
pub fn status_button_action_event_mask() -> (mask: EventMask)
    ensures
        mask@ == seq![
            EventType::RightMouseDown,
            EventType::RightMouseUp,
            EventType::OtherMouseDown,
            EventType::OtherMouseUp,
            EventType::LeftMouseDown,
            EventType::LeftMouseUp,
        ],
{
    EventMask {
        types: vec![
            EventType::RightMouseDown,
            EventType::RightMouseUp,
            EventType::OtherMouseDown,
            EventType::OtherMouseUp,
            EventType::LeftMouseDown,
            EventType::LeftMouseUp,
        ],
    }
}

/// The events a native monitor of the status item listens to: mouse downs
/// and ups, system-defined events, scrolling, and every trackpad gesture.
pub fn status_item_native_event_monitor_mask() -> (mask: EventMask)
    ensures
        mask@ == seq![
            EventType::RightMouseDown,
            EventType::RightMouseUp,
            EventType::LeftMouseDown,
            EventType::LeftMouseUp,
            EventType::OtherMouseDown,
            EventType::OtherMouseUp,
            EventType::SystemDefined,
            EventType::ScrollWheel,
            EventType::Gesture,
            EventType::Magnify,
            EventType::Swipe,
            EventType::Rotate,
            EventType::BeginGesture,
            EventType::EndGesture,
            EventType::SmartMagnify,
            EventType::Pressure,
            EventType::DirectTouch,
        ],
{
    EventMask {
        types: vec![
            EventType::RightMouseDown,
            EventType::RightMouseUp,
            EventType::LeftMouseDown,
            EventType::LeftMouseUp,
            EventType::OtherMouseDown,
            EventType::OtherMouseUp,
            EventType::SystemDefined,
            EventType::ScrollWheel,
            EventType::Gesture,
            EventType::Magnify,
            EventType::Swipe,
            EventType::Rotate,
            EventType::BeginGesture,
            EventType::EndGesture,
            EventType::SmartMagnify,
            EventType::Pressure,
            EventType::DirectTouch,
        ],
    }
}

} // verus!

verus! {

/// Every secondary-click shape opens the menu from the native status item,
/// and no plain primary click does.
pub proof fn lemma_context_clicks_open_native_menu(
    event_type: EventType,
    modifier_flags: ModifierFlags,
    button_number: isize,
)
    ensures
        is_context_click(event_type, modifier_flags, button_number) ==> opens_from_native_event(
            event_type,
            modifier_flags,
            button_number,
        ),
        is_plain_primary_click(event_type, modifier_flags, button_number) ==> !opens_from_native_event(
            event_type,
            modifier_flags,
            button_number,
        ),
        is_plain_primary_click(event_type, modifier_flags, button_number) ==> !is_context_click(
            event_type,
            modifier_flags,
            button_number,
        ),
{
}

/// A plain primary click toggles the panel only on mouse up and only when
/// the native menu did not just open; anything else passes through.
pub proof fn lemma_primary_click_toggles_only_on_mouse_up(
    event_type: EventType,
    modifier_flags: ModifierFlags,
    button_number: isize,
    native_menu_recently_opened: bool,
)
    ensures
        primary_click_action(event_type, modifier_flags, button_number, native_menu_recently_opened)
            == PrimaryStatusItemClickAction::TogglePanel <==> (is_plain_primary_click(
            event_type,
            modifier_flags,
            button_number,
        ) && event_type == EventType::LeftMouseUp && !native_menu_recently_opened),
        primary_click_action(event_type, modifier_flags, button_number, native_menu_recently_opened)
            == PrimaryStatusItemClickAction::PassThrough <==> !is_plain_primary_click(
            event_type,
            modifier_flags,
            button_number,
        ),
{
}

} // verus!
