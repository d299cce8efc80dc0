//! AppKit event monitors on the status item: which events they listen to and
//! which of those open the context menu.

use vstd::prelude::*;
use crate::events::{EventMask, EventType, NativeEvent};
use crate::tray_events::{opens_from_native_event, opens_from_trackpad_event, should_open_tray_menu_from_native_event};

verus! {

/// A monitored event opens the menu: with the mouse on the status item,
/// for an event that opens it natively or one with two or more touches.
pub open spec fn monitor_opens(native_open: bool, touch_count: usize, mouse_inside: bool) -> bool {
    mouse_inside && (native_open || touch_count >= 2)
}

/// The menu opens from a monitored event only with the mouse on the status
/// item, and then for an event that opens it natively or one with two or
/// more touches.
pub fn should_open_from_monitor_event_details(
    native_open: bool,
    touch_count: usize,
    mouse_inside: bool,
) -> (r: bool)
    ensures
        r == monitor_opens(native_open, touch_count, mouse_inside),
{
    mouse_inside && (native_open || touch_count >= 2)
}

/// Whether a monitored `event` opens the menu, given the pressed mouse
/// buttons, its touch count and whether the mouse is on the status item.
pub fn should_open_from_monitor_event(
    event: &NativeEvent,
    pressed_mouse_buttons: usize,
    touch_count: usize,
    mouse_inside: bool,
) -> (r: bool)
    ensures
        r == (mouse_inside && (opens_from_native_event(
            event.event_type,
            event.modifier_flags,
            event.button_number,
        ) || opens_from_trackpad_event(event.event_type, pressed_mouse_buttons) || touch_count >= 2)),
{
    let native_open = should_open_tray_menu_from_native_event(event, pressed_mouse_buttons);
    should_open_from_monitor_event_details(native_open, touch_count, mouse_inside)
}

/// The events the AppKit monitors listen to: mouse downs and ups,
/// system-defined events and every trackpad gesture.
pub fn status_item_event_monitor_mask() -> (mask: EventMask)
    ensures
        mask@ == seq![
            EventType::RightMouseDown,
            EventType::RightMouseUp,
            EventType::LeftMouseDown,
            EventType::LeftMouseUp,
            EventType::OtherMouseDown,
            EventType::OtherMouseUp,
            EventType::SystemDefined,
            EventType::Gesture,
            EventType::Magnify,
            EventType::Swipe,
            EventType::Rotate,
            EventType::BeginGesture,
            EventType::EndGesture,
            EventType::SmartMagnify,
            EventType::Pressure,
            EventType::DirectTouch,
        ],
{
    EventMask {
        types: vec![
            EventType::RightMouseDown,
            EventType::RightMouseUp,
            EventType::LeftMouseDown,
            EventType::LeftMouseUp,
            EventType::OtherMouseDown,
            EventType::OtherMouseUp,
            EventType::SystemDefined,
            EventType::Gesture,
            EventType::Magnify,
            EventType::Swipe,
            EventType::Rotate,
            EventType::BeginGesture,
            EventType::EndGesture,
            EventType::SmartMagnify,
            EventType::Pressure,
            EventType::DirectTouch,
        ],
    }
}

} // verus!

verus! {

/// The monitors never open the menu while the mouse is away from the status
/// item, and with the mouse on it a second touch is enough.
pub proof fn lemma_monitor_needs_mouse_inside(native_open: bool, touch_count: usize)
    ensures
        !monitor_opens(native_open, touch_count, false),
        touch_count >= 2 ==> monitor_opens(native_open, touch_count, true),
{
}

} // verus!
