//! The custom status item view: which clicks and touches open the context
//! menu, which toggle the panel, and the flags it keeps between events.

use vstd::prelude::*;
use crate::events::{EventType, ModifierFlags, NativeEvent, flags_have_control, has_control};
use crate::tray_events::is_context_click;

verus! {

/// Whether an event of this shape is a secondary click.
pub fn event_is_context_click_details(
    event_type: EventType,
    modifier_flags: ModifierFlags,
    button_number: isize,
) -> (r: bool)
    ensures
        r == is_context_click(event_type, modifier_flags, button_number),
{
    let control = flags_have_control(modifier_flags);
    event_type == EventType::RightMouseDown || event_type == EventType::RightMouseUp || event_type
        == EventType::OtherMouseDown || event_type == EventType::OtherMouseUp || ((event_type
        == EventType::LeftMouseDown || event_type == EventType::LeftMouseUp) && (control
        || button_number == 1))
}

/// Whether `event` is a secondary click.
pub fn event_is_context_click(event: &NativeEvent) -> (r: bool)
    ensures
        r == is_context_click(event.event_type, event.modifier_flags, event.button_number),
{
    event_is_context_click_details(event.event_type, event.modifier_flags, event.button_number)
}

/// A second touch opens the menu, once per touch sequence.
pub fn should_open_from_touch_count(menu_open_for_current_touch: bool, touch_count: usize) -> (r: bool)
    ensures
        r == (!menu_open_for_current_touch && touch_count >= 2),
{
    !menu_open_for_current_touch && touch_count >= 2
}

/// Fewer than two touches end the touch sequence.
pub fn should_reset_touch_gate(touch_count: usize) -> (r: bool)
    ensures
        r == (touch_count < 2),
{
    touch_count < 2
}

/// The events the view handles.
#[derive(Clone, Copy, Debug, PartialEq, Eq, Structural)]
pub enum ViewInput {
    MouseDown,
    MouseUp,
    RightMouseDown,
    RightMouseUp,
    OtherMouseDown,
    OtherMouseUp,
    /// A scroll, gesture, pressure or touch event.
    Touch,
    /// AppKit asks the view for its context menu.
    MenuForEvent,
    /// A click gesture recognizer fired.
    ClickGesture,
}

/// What the view does with an event.
#[derive(Clone, Copy, Debug, PartialEq, Eq, Structural)]
pub enum ViewResponse {
    Nothing,
    OpenMenu,
    TogglePanel,
    /// Hand AppKit the context menu.
    ProvideMenu,
}

/// The flags the view keeps between events.
#[derive(Clone, Copy, Debug, PartialEq, Eq, Structural)]
pub struct StatusItemViewInputState {
    pub suppress_next_mouse_up: bool,
    pub two_touch_menu_open: bool,
}

impl StatusItemViewInputState {
    /// Neither flag is set.
    pub fn new() -> (state: Self)
        ensures
            !state.suppress_next_mouse_up,
            !state.two_touch_menu_open,
    {
        StatusItemViewInputState { suppress_next_mouse_up: false, two_touch_menu_open: false }
    }

    /// Whether `event`, with `touch_count` touches, opens the menu: a
    /// secondary click, or a second touch that has not opened it yet.
    pub fn should_open_context_menu_from_event(&self, event: &NativeEvent, touch_count: usize) -> (r: bool)
        ensures
            r == (is_context_click(event.event_type, event.modifier_flags, event.button_number) || (
            !self.two_touch_menu_open && touch_count >= 2)),
    {
        event_is_context_click(event) || should_open_from_touch_count(
            self.two_touch_menu_open,
            touch_count,
        )
    }

    /// Handles a touch event: a second touch opens the menu once per touch
    /// sequence (and the mouse up that follows is swallowed); fewer than two
    /// touches end the sequence.
    pub fn handle_touch_event(&mut self, touch_count: usize) -> (open: bool)
        ensures
            (*final(self), if open {
                ViewResponse::OpenMenu
            } else {
                ViewResponse::Nothing
            }) == status_view_step(*old(self), ViewInput::Touch, true, touch_count, 0),
    {
        if should_open_from_touch_count(self.two_touch_menu_open, touch_count) {
            self.two_touch_menu_open = true;
            self.suppress_next_mouse_up = true;
            return true;
        }
        if should_reset_touch_gate(touch_count) {
            self.two_touch_menu_open = false;
        }
        false
    }
}

/// The view's response and next flags for `input`, where `context_click`
/// says whether the event is a secondary click, `touch_count` is its touches
/// and `button_number` its button.
pub open spec fn status_view_step(
    state: StatusItemViewInputState,
    input: ViewInput,
    context_click: bool,
    touch_count: usize,
    button_number: isize,
) -> (StatusItemViewInputState, ViewResponse) {
    let opens = context_click || (!state.two_touch_menu_open && touch_count >= 2);
    let suppressed = StatusItemViewInputState { suppress_next_mouse_up: true, ..state };
    match input {
        ViewInput::MouseDown => if opens {
            (suppressed, ViewResponse::OpenMenu)
        } else {
            (state, ViewResponse::Nothing)
        },
        ViewInput::MouseUp => {
            let cleared = StatusItemViewInputState { suppress_next_mouse_up: false, ..state };
            if state.suppress_next_mouse_up {
                (cleared, ViewResponse::Nothing)
            } else if opens {
                (cleared, ViewResponse::OpenMenu)
            } else {
                (cleared, ViewResponse::TogglePanel)
            }
        },
        ViewInput::RightMouseDown | ViewInput::RightMouseUp | ViewInput::ClickGesture => (
            suppressed,
            ViewResponse::OpenMenu,
        ),
        ViewInput::OtherMouseDown | ViewInput::OtherMouseUp => if button_number > 0 {
            (suppressed, ViewResponse::OpenMenu)
        } else {
            (state, ViewResponse::Nothing)
        },
        ViewInput::Touch => if !state.two_touch_menu_open && touch_count >= 2 {
            (
                StatusItemViewInputState { suppress_next_mouse_up: true, two_touch_menu_open: true },
                ViewResponse::OpenMenu,
            )
        } else if touch_count < 2 {
            (StatusItemViewInputState { two_touch_menu_open: false, ..state }, ViewResponse::Nothing)
        } else {
            (state, ViewResponse::Nothing)
        },
        ViewInput::MenuForEvent => (suppressed, ViewResponse::ProvideMenu),
    }
}

/// Handles one event of the custom status view: secondary clicks, other
/// buttons and click gestures open the menu, a plain click toggles the panel
/// on mouse up, and a mouse up that ends a click which already opened the
/// menu does nothing.
pub fn handle_status_item_view_input(
    state: &mut StatusItemViewInputState,
    input: ViewInput,
    event: &NativeEvent,
    touch_count: usize,
) -> (response: ViewResponse)
    ensures
        (*final(state), response) == status_view_step(
            *old(state),
            input,
            is_context_click(event.event_type, event.modifier_flags, event.button_number),
            touch_count,
            event.button_number,
        ),
        input == ViewInput::RightMouseDown || input == ViewInput::RightMouseUp || input
            == ViewInput::ClickGesture ==> response == ViewResponse::OpenMenu
            && final(state).suppress_next_mouse_up && final(state).two_touch_menu_open == old(
            state,
        ).two_touch_menu_open,
        input == ViewInput::MouseDown && (event.event_type == EventType::RightMouseDown
            || event.event_type == EventType::OtherMouseDown || (event.event_type
            == EventType::LeftMouseDown && (has_control(event.modifier_flags) || event.button_number
            == 1))) ==> response == ViewResponse::OpenMenu && final(state).suppress_next_mouse_up,
{
    match input {
        ViewInput::MouseDown => {
            if state.should_open_context_menu_from_event(event, touch_count) {
                state.suppress_next_mouse_up = true;
                ViewResponse::OpenMenu
            } else {
                ViewResponse::Nothing
            }
        },
        ViewInput::MouseUp => {
            let suppressed = state.suppress_next_mouse_up;
            state.suppress_next_mouse_up = false;
            if suppressed {
                ViewResponse::Nothing
            } else if state.should_open_context_menu_from_event(event, touch_count) {
                ViewResponse::OpenMenu
            } else {
                ViewResponse::TogglePanel
            }
        },
        ViewInput::RightMouseDown | ViewInput::RightMouseUp | ViewInput::ClickGesture => {
            state.suppress_next_mouse_up = true;
            ViewResponse::OpenMenu
        },
        ViewInput::OtherMouseDown | ViewInput::OtherMouseUp => {
            if event.button_number > 0 {
                state.suppress_next_mouse_up = true;
                ViewResponse::OpenMenu
            } else {
                ViewResponse::Nothing
            }
        },
        ViewInput::Touch => {
            if state.handle_touch_event(touch_count) {
                ViewResponse::OpenMenu
            } else {
                ViewResponse::Nothing
            }
        },
        ViewInput::MenuForEvent => {
            state.suppress_next_mouse_up = true;
            ViewResponse::ProvideMenu
        },
    }
}

/// The click that opens the menu does not also toggle the panel: whenever an
/// event other than a plain mouse up opens the menu, the next mouse up does
/// nothing.
pub proof fn lemma_status_view_opening_swallows_mouse_up(
    state: StatusItemViewInputState,
    input: ViewInput,
    context_click: bool,
    touch_count: usize,
    button_number: isize,
    up_context_click: bool,
    up_touch_count: usize,
    up_button_number: isize,
)
    requires
        input != ViewInput::MouseUp,
        status_view_step(state, input, context_click, touch_count, button_number).1
            == ViewResponse::OpenMenu,
    ensures
        ({
            let next = status_view_step(state, input, context_click, touch_count, button_number).0;
            status_view_step(next, ViewInput::MouseUp, up_context_click, up_touch_count, up_button_number)
                == (StatusItemViewInputState { suppress_next_mouse_up: false, ..next }, ViewResponse::Nothing)
        }),
{
}

/// Two touches open the menu once per touch sequence: after a touch event
/// opens it, touch events with two or more touches open nothing until one
/// with fewer than two touches ends the sequence.
pub proof fn lemma_status_view_touch_opens_once(
    state: StatusItemViewInputState,
    touch_count: usize,
    later_touch_count: usize,
)
    requires
        status_view_step(state, ViewInput::Touch, false, touch_count, 0).1 == ViewResponse::OpenMenu,
        later_touch_count >= 2,
    ensures
        ({
            let next = status_view_step(state, ViewInput::Touch, false, touch_count, 0).0;
            status_view_step(next, ViewInput::Touch, false, later_touch_count, 0) == (
            next, ViewResponse::Nothing)
        }),
{
}

/// After a touch event with fewer than two touches, the next second touch
/// opens the menu again.
pub proof fn lemma_status_view_touch_gate_resets(
    state: StatusItemViewInputState,
    touch_count: usize,
    next_touch_count: usize,
)
    requires
        touch_count < 2,
        next_touch_count >= 2,
    ensures
        ({
            let next = status_view_step(state, ViewInput::Touch, false, touch_count, 0).0;
            status_view_step(next, ViewInput::Touch, false, next_touch_count, 0).1
                == ViewResponse::OpenMenu
        }),
{
}

/// Every secondary click on the view opens the menu and swallows the mouse up
/// that follows: a right-button press or release and a click gesture always
/// do, and so does a mouse down of a secondary-click shape (right or other
/// button, or a left button with control held or reported as button one);
/// a plain primary mouse down opens nothing and a plain primary mouse up
/// toggles the panel.
pub proof fn lemma_status_view_secondary_clicks_open_menu(
    state: StatusItemViewInputState,
    event: NativeEvent,
    touch_count: usize,
)
    ensures
        ({
            let context_click = is_context_click(
                event.event_type,
                event.modifier_flags,
                event.button_number,
            );
            let opened = (
                StatusItemViewInputState { suppress_next_mouse_up: true, ..state },
                ViewResponse::OpenMenu,
            );
            &&& status_view_step(
                state,
                ViewInput::RightMouseDown,
                context_click,
                touch_count,
                event.button_number,
            ) == opened
            &&& status_view_step(
                state,
                ViewInput::RightMouseUp,
                context_click,
                touch_count,
                event.button_number,
            ) == opened
            &&& status_view_step(
                state,
                ViewInput::ClickGesture,
                context_click,
                touch_count,
                event.button_number,
            ) == opened
            &&& (event.event_type == EventType::RightMouseDown || event.event_type
                == EventType::OtherMouseDown || (event.event_type == EventType::LeftMouseDown && (
            has_control(event.modifier_flags) || event.button_number == 1))) ==> status_view_step(
                state,
                ViewInput::MouseDown,
                context_click,
                touch_count,
                event.button_number,
            ) == opened
            &&& (event.event_type == EventType::LeftMouseDown && !has_control(event.modifier_flags)
                && event.button_number == 0 && (state.two_touch_menu_open || touch_count < 2))
                ==> status_view_step(
                state,
                ViewInput::MouseDown,
                context_click,
                touch_count,
                event.button_number,
            ) == (state, ViewResponse::Nothing)
            &&& (event.event_type == EventType::LeftMouseUp && !has_control(event.modifier_flags)
                && event.button_number == 0 && (state.two_touch_menu_open || touch_count < 2)
                && !state.suppress_next_mouse_up) ==> status_view_step(
                state,
                ViewInput::MouseUp,
                context_click,
                touch_count,
                event.button_number,
            ).1 == ViewResponse::TogglePanel
        }),
{
}

} // verus!
