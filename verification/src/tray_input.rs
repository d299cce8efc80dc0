//! The input paths of the native status item: the status button's action
//! target, the input overlay view, the system menu's delegate, the polled
//! secondary button, and the tray icon's own click events.

use vstd::prelude::*;
use crate::events::{EventType, ModifierFlags, NativeEvent, has_control};
use crate::gestures::{ContextClickGestureSpec, context_click_gesture_specs};
use crate::menu_guard::{
    NativeMenuOpenTracker, RECENT_NATIVE_MENU_OPEN_MOUSE_UP_MILLIS, within_window,
    mark_native_menu_opened, native_menu_recently_opened_for_mouse_up,
};
use crate::tray_events::{
    PrimaryStatusItemClickAction, is_context_click, is_plain_primary_click, opens_from_native_event,
    opens_from_trackpad_event, primary_click_action, primary_status_item_click_action,
    should_cancel_status_item_system_menu_for_primary_click, should_handle_primary_status_item_click,
    should_open_tray_menu_from_native_event, should_open_tray_menu_from_native_event_details,
    should_open_tray_menu_from_polled_button_state, should_open_tray_menu_from_status_button_action_event,
    should_open_tray_menu_from_touch_count, should_reset_touch_menu_gate,
};

verus! {

/// The click gestures of the native status view: the same recognizers as
/// the custom view's.
pub type StatusViewClickGestureSpec = ContextClickGestureSpec;

/// The click gesture recognizers installed on the native status view.
pub fn status_view_context_click_gesture_specs() -> (specs: [StatusViewClickGestureSpec; 3])
    ensures
        specs@ == seq![
            ContextClickGestureSpec { button_mask: 2, touch_count: 1, delay_primary: false, delay_secondary: true },
            ContextClickGestureSpec { button_mask: 1, touch_count: 2, delay_primary: true, delay_secondary: false },
            ContextClickGestureSpec { button_mask: 2, touch_count: 2, delay_primary: false, delay_secondary: true },
        ],
{
    context_click_gesture_specs()
}

/// What the overlay does on a mouse up that is not itself a context click.
#[derive(Clone, Copy, Debug, PartialEq, Eq, Structural)]
pub enum TrayOverlayMouseUpAction {
    Ignore,
    OpenMenu,
    TogglePanel,
}

/// A suppressed mouse up is ignored; one that opens the menu natively opens
/// it; one right after the native menu opened is ignored; any other toggles
/// the panel.
pub open spec fn overlay_mouse_up(
    suppress_next_mouse_up: bool,
    event_type: EventType,
    modifier_flags: ModifierFlags,
    button_number: isize,
    native_menu_recently_opened: bool,
) -> TrayOverlayMouseUpAction {
    if suppress_next_mouse_up {
        TrayOverlayMouseUpAction::Ignore
    } else if opens_from_native_event(event_type, modifier_flags, button_number) {
        TrayOverlayMouseUpAction::OpenMenu
    } else if native_menu_recently_opened {
        TrayOverlayMouseUpAction::Ignore
    } else {
        TrayOverlayMouseUpAction::TogglePanel
    }
}

/// The overlay's mouse-up action for an event of this shape.
pub fn overlay_mouse_up_action_details(
    suppress_next_mouse_up: bool,
    event_type: EventType,
    modifier_flags: ModifierFlags,
    button_number: isize,
    native_menu_recently_opened: bool,
) -> (action: TrayOverlayMouseUpAction)
    ensures
        action == overlay_mouse_up(
            suppress_next_mouse_up,
            event_type,
            modifier_flags,
            button_number,
            native_menu_recently_opened,
        ),
{
    if suppress_next_mouse_up {
        return TrayOverlayMouseUpAction::Ignore;
    }
    if should_open_tray_menu_from_native_event_details(event_type, modifier_flags, button_number) {
        return TrayOverlayMouseUpAction::OpenMenu;
    }
    if native_menu_recently_opened {
        return TrayOverlayMouseUpAction::Ignore;
    }
    TrayOverlayMouseUpAction::TogglePanel
}

/// The overlay's mouse-up action for `event` at `now`.
pub fn overlay_mouse_up_action(
    suppress_next_mouse_up: bool,
    event: &NativeEvent,
    tracker: &NativeMenuOpenTracker,
    now: u64,
) -> (action: TrayOverlayMouseUpAction)
    ensures
        action == overlay_mouse_up(
            suppress_next_mouse_up,
            event.event_type,
            event.modifier_flags,
            event.button_number,
            within_window(tracker.last_opened_at, now, RECENT_NATIVE_MENU_OPEN_MOUSE_UP_MILLIS),
        ),
{
    overlay_mouse_up_action_details(
        suppress_next_mouse_up,
        event.event_type,
        event.modifier_flags,
        event.button_number,
        native_menu_recently_opened_for_mouse_up(tracker, now),
    )
}

/// The overlay window sits one level above the screen saver.
pub const SCREEN_SAVER_WINDOW_LEVEL: isize = 1000;
/// AppKit's level of status item windows.
pub const STATUS_WINDOW_LEVEL: isize = 25;
/// AppKit's level of pop-up menus.
pub const POP_UP_MENU_WINDOW_LEVEL: isize = 101;

/// The window level of the input overlay: just above the screen saver, so
/// above status items and menus.
pub fn tray_input_overlay_window_level() -> (level: isize)
    ensures
        level == SCREEN_SAVER_WINDOW_LEVEL + 1,
        level > STATUS_WINDOW_LEVEL,
        level > POP_UP_MENU_WINDOW_LEVEL,
{
    SCREEN_SAVER_WINDOW_LEVEL + 1
}

/// The collection behaviour of the overlay window, as AppKit bits: on all
/// spaces (bit 0), stationary (bit 4), outside window cycling (bit 6), and
/// beside full-screen windows (bit 8).
pub fn tray_input_overlay_collection_behavior() -> (bits: u64)
    ensures
        bits == (1u64 | 16u64 | 64u64 | 256u64),
{
    1u64 | 16u64 | 64u64 | 256u64
}

/// The input overlay window is installed whether or not a custom status
/// view is.
pub fn should_install_tray_input_overlay_window(installed_custom_status_view: bool) -> (r: bool)
    ensures
        r,
{
    true
}

/// The events the overlay view handles.
#[derive(Clone, Copy, Debug, PartialEq, Eq, Structural)]
pub enum OverlayInput {
    MouseDown,
    MouseUp,
    RightMouseDown,
    RightMouseUp,
    OtherMouseDown,
    OtherMouseUp,
    /// A scroll, gesture, pressure or touch event.
    Touch,
    /// AppKit asks the view for its context menu.
    MenuForEvent,
}

/// What the overlay does with an event.
#[derive(Clone, Copy, Debug, PartialEq, Eq, Structural)]
pub enum OverlayResponse {
    Nothing,
    /// Open the menu for the event, unless it opened moments ago.
    OpenMenuForEvent,
    /// Open the menu.
    OpenMenu,
    TogglePanel,
    /// Hand AppKit the context menu.
    ProvideMenu,
}

/// The flags the overlay view keeps between events.
#[derive(Clone, Copy, Debug, PartialEq, Eq, Structural)]
pub struct TrayInputOverlayState {
    pub suppress_next_mouse_up: bool,
    pub two_touch_menu_open: bool,
}

impl TrayInputOverlayState {
    /// Neither flag is set.
    pub fn new() -> (state: Self)
        ensures
            !state.suppress_next_mouse_up,
            !state.two_touch_menu_open,
    {
        TrayInputOverlayState { suppress_next_mouse_up: false, two_touch_menu_open: false }
    }

    /// Whether `event` opens the menu from the overlay: an event that opens
    /// it natively, or a second touch that has not opened it yet.
    pub fn should_open_context_menu_from_event(
        &self,
        event: &NativeEvent,
        pressed_mouse_buttons: usize,
        touch_count: usize,
    ) -> (r: bool)
        ensures
            r == (opens_from_native_event(event.event_type, event.modifier_flags, event.button_number)
                || opens_from_trackpad_event(event.event_type, pressed_mouse_buttons) || (
            !self.two_touch_menu_open && touch_count >= 2)),
    {
        should_open_tray_menu_from_native_event(event, pressed_mouse_buttons)
            || should_open_tray_menu_from_touch_count(self.two_touch_menu_open, touch_count)
    }

    /// Handles a touch event: a second touch opens the menu once per touch
    /// sequence; fewer than two touches end the sequence.
    pub fn handle_touch_event(&mut self, touch_count: usize) -> (open: bool)
        ensures
            open == (!old(self).two_touch_menu_open && touch_count >= 2),
            final(self).suppress_next_mouse_up == old(self).suppress_next_mouse_up,
            final(self).two_touch_menu_open == if open {
                true
            } else if touch_count < 2 {
                false
            } else {
                old(self).two_touch_menu_open
            },
    {
        if should_open_tray_menu_from_touch_count(self.two_touch_menu_open, touch_count) {
            self.two_touch_menu_open = true;
            return true;
        }
        if should_reset_touch_menu_gate(touch_count) {
            self.two_touch_menu_open = false;
        }
        false
    }
}

/// The overlay's response and next flags for `input`; `opens` says whether
/// the event opens the menu from the overlay, `mouse_up_action` is the
/// mouse-up action with the suppress flag as it was.
pub open spec fn overlay_step(
    state: TrayInputOverlayState,
    input: OverlayInput,
    opens: bool,
    mouse_up_action: TrayOverlayMouseUpAction,
    touch_count: usize,
    button_number: isize,
) -> (TrayInputOverlayState, OverlayResponse) {
    let suppressed = TrayInputOverlayState { suppress_next_mouse_up: true, ..state };
    let cleared = TrayInputOverlayState { suppress_next_mouse_up: false, ..state };
    match input {
        OverlayInput::MouseDown => if opens {
            (suppressed, OverlayResponse::OpenMenuForEvent)
        } else {
            (state, OverlayResponse::Nothing)
        },
        OverlayInput::MouseUp => if opens {
            (cleared, OverlayResponse::OpenMenuForEvent)
        } else {
            (
                cleared,
                match mouse_up_action {
                    TrayOverlayMouseUpAction::Ignore => OverlayResponse::Nothing,
                    TrayOverlayMouseUpAction::OpenMenu => OverlayResponse::OpenMenuForEvent,
                    TrayOverlayMouseUpAction::TogglePanel => OverlayResponse::TogglePanel,
                },
            )
        },
        OverlayInput::RightMouseDown | OverlayInput::RightMouseUp => (
            suppressed,
            OverlayResponse::OpenMenuForEvent,
        ),
        OverlayInput::OtherMouseDown | OverlayInput::OtherMouseUp => if button_number > 0 {
            (suppressed, OverlayResponse::OpenMenuForEvent)
        } else {
            (state, OverlayResponse::Nothing)
        },
        OverlayInput::Touch => if !state.two_touch_menu_open && touch_count >= 2 {
            (TrayInputOverlayState { two_touch_menu_open: true, ..state }, OverlayResponse::OpenMenu)
        } else if touch_count < 2 {
            (TrayInputOverlayState { two_touch_menu_open: false, ..state }, OverlayResponse::Nothing)
        } else {
            (state, OverlayResponse::Nothing)
        },
        OverlayInput::MenuForEvent => (suppressed, OverlayResponse::ProvideMenu),
    }
}

/// Handles one event of the input overlay view at `now`.
pub fn handle_tray_input_overlay_input(
    state: &mut TrayInputOverlayState,
    input: OverlayInput,
    event: &NativeEvent,
    pressed_mouse_buttons: usize,
    touch_count: usize,
    tracker: &NativeMenuOpenTracker,
    now: u64,
) -> (response: OverlayResponse)
    ensures
        (*final(state), response) == overlay_step(
            *old(state),
            input,
            opens_from_native_event(event.event_type, event.modifier_flags, event.button_number)
                || opens_from_trackpad_event(event.event_type, pressed_mouse_buttons) || (
            !old(state).two_touch_menu_open && touch_count >= 2),
            overlay_mouse_up(
                old(state).suppress_next_mouse_up,
                event.event_type,
                event.modifier_flags,
                event.button_number,
                within_window(tracker.last_opened_at, now, RECENT_NATIVE_MENU_OPEN_MOUSE_UP_MILLIS),
            ),
            touch_count,
            event.button_number,
        ),
{
    match input {
        OverlayInput::MouseDown => {
            if state.should_open_context_menu_from_event(event, pressed_mouse_buttons, touch_count) {
                state.suppress_next_mouse_up = true;
                OverlayResponse::OpenMenuForEvent
            } else {
                OverlayResponse::Nothing
            }
        },
        OverlayInput::MouseUp => {
            if state.should_open_context_menu_from_event(event, pressed_mouse_buttons, touch_count) {
                state.suppress_next_mouse_up = false;
                return OverlayResponse::OpenMenuForEvent;
            }
            let suppressed = state.suppress_next_mouse_up;
            state.suppress_next_mouse_up = false;
            match overlay_mouse_up_action(suppressed, event, tracker, now) {
                TrayOverlayMouseUpAction::Ignore => OverlayResponse::Nothing,
                TrayOverlayMouseUpAction::OpenMenu => OverlayResponse::OpenMenuForEvent,
                TrayOverlayMouseUpAction::TogglePanel => OverlayResponse::TogglePanel,
            }
        },
        OverlayInput::RightMouseDown | OverlayInput::RightMouseUp => {
            state.suppress_next_mouse_up = true;
            OverlayResponse::OpenMenuForEvent
        },
        OverlayInput::OtherMouseDown | OverlayInput::OtherMouseUp => {
            if event.button_number > 0 {
                state.suppress_next_mouse_up = true;
                OverlayResponse::OpenMenuForEvent
            } else {
                OverlayResponse::Nothing
            }
        },
        OverlayInput::Touch => {
            if state.handle_touch_event(touch_count) {
                OverlayResponse::OpenMenu
            } else {
                OverlayResponse::Nothing
            }
        },
        OverlayInput::MenuForEvent => {
            state.suppress_next_mouse_up = true;
            OverlayResponse::ProvideMenu
        },
    }
}

/// A suppressed mouse up never toggles the panel: after a secondary click or
/// a menu request on the overlay, the next plain mouse up does nothing.
pub proof fn lemma_overlay_suppressed_mouse_up_does_not_toggle(
    state: TrayInputOverlayState,
    event_type: EventType,
    modifier_flags: ModifierFlags,
    button_number: isize,
    recent: bool,
    touch_count: usize,
)
    requires
        state.suppress_next_mouse_up,
    ensures
        overlay_step(
            state,
            OverlayInput::MouseUp,
            false,
            overlay_mouse_up(true, event_type, modifier_flags, button_number, recent),
            touch_count,
            button_number,
        ).1 == OverlayResponse::Nothing,
{
}

} // verus!

verus! {

/// What the status button's action target keeps between actions.
#[derive(Clone, Copy, Debug, PartialEq, Eq, Structural)]
pub struct StatusButtonActionState {
    /// The event number of the last event that opened the menu; -1 before any.
    pub last_event_number: isize,
    pub two_touch_menu_open: bool,
}

impl StatusButtonActionState {
    /// No event seen yet.
    pub fn new() -> (state: Self)
        ensures
            state.last_event_number == -1,
            !state.two_touch_menu_open,
    {
        StatusButtonActionState { last_event_number: -1, two_touch_menu_open: false }
    }
}

/// What the status button's action does.
#[derive(Clone, Copy, Debug, PartialEq, Eq, Structural)]
pub enum StatusButtonAction {
    Nothing,
    ShowMenu,
    TogglePanel,
}

/// The action and next state for `event` with `touch_count` touches: a
/// second touch shows the menu once per touch sequence; then a plain primary
/// click toggles the panel on mouse up (unless the native menu just opened)
/// and does nothing else; then a secondary click shows the menu, except for
/// a repeat of the non-zero event number that last showed it.
pub open spec fn status_button_step(
    state: StatusButtonActionState,
    event: NativeEvent,
    touch_count: usize,
    native_menu_recently_opened: bool,
) -> (StatusButtonActionState, StatusButtonAction) {
    if !state.two_touch_menu_open && touch_count >= 2 {
        (StatusButtonActionState { two_touch_menu_open: true, ..state }, StatusButtonAction::ShowMenu)
    } else {
        let gated = if touch_count < 2 {
            StatusButtonActionState { two_touch_menu_open: false, ..state }
        } else {
            state
        };
        if is_plain_primary_click(event.event_type, event.modifier_flags, event.button_number) {
            (
                gated,
                if primary_click_action(
                    event.event_type,
                    event.modifier_flags,
                    event.button_number,
                    native_menu_recently_opened,
                ) == PrimaryStatusItemClickAction::TogglePanel {
                    StatusButtonAction::TogglePanel
                } else {
                    StatusButtonAction::Nothing
                },
            )
        } else if !is_context_click(event.event_type, event.modifier_flags, event.button_number) {
            (gated, StatusButtonAction::Nothing)
        } else if event.event_number != 0 && event.event_number == state.last_event_number {
            (gated, StatusButtonAction::Nothing)
        } else {
            (
                StatusButtonActionState { last_event_number: event.event_number, ..gated },
                StatusButtonAction::ShowMenu,
            )
        }
    }
}

/// Handles the status button's action for the current `event` at `now`.
pub fn handle_status_button_action(
    state: &mut StatusButtonActionState,
    event: &NativeEvent,
    touch_count: usize,
    tracker: &NativeMenuOpenTracker,
    now: u64,
) -> (action: StatusButtonAction)
    ensures
        (*final(state), action) == status_button_step(
            *old(state),
            *event,
            touch_count,
            within_window(tracker.last_opened_at, now, RECENT_NATIVE_MENU_OPEN_MOUSE_UP_MILLIS),
        ),
        touch_count < 2 && (event.event_type == EventType::RightMouseDown || event.event_type
            == EventType::RightMouseUp || event.event_type == EventType::OtherMouseDown
            || event.event_type == EventType::OtherMouseUp || ((event.event_type
            == EventType::LeftMouseDown || event.event_type == EventType::LeftMouseUp) && (
        has_control(event.modifier_flags) || event.button_number == 1))) && !(event.event_number
            != 0 && event.event_number == old(state).last_event_number) ==> action
            == StatusButtonAction::ShowMenu && final(state).last_event_number == event.event_number,
{
    if should_open_tray_menu_from_touch_count(state.two_touch_menu_open, touch_count) {
        state.two_touch_menu_open = true;
        return StatusButtonAction::ShowMenu;
    }
    if should_reset_touch_menu_gate(touch_count) {
        state.two_touch_menu_open = false;
    }
    if should_handle_primary_status_item_click(event) {
        let recent = native_menu_recently_opened_for_mouse_up(tracker, now);
        return match primary_status_item_click_action(event, recent) {
            PrimaryStatusItemClickAction::TogglePanel => StatusButtonAction::TogglePanel,
            PrimaryStatusItemClickAction::Ignore => StatusButtonAction::Nothing,
            PrimaryStatusItemClickAction::PassThrough => StatusButtonAction::Nothing,
        };
    }
    if !should_open_tray_menu_from_status_button_action_event(event) {
        return StatusButtonAction::Nothing;
    }
    let event_number = event.event_number;
    if event_number != 0 && event_number == state.last_event_number {
        return StatusButtonAction::Nothing;
    }
    state.last_event_number = event_number;
    StatusButtonAction::ShowMenu
}

/// Every secondary-click shape shows the menu from the status button, unless
/// it repeats the event number of the last one that did: a right or other
/// button press or release, or a left one with control held or reported as
/// button one, with fewer than two touches, shows the menu and records its
/// event number; a second touch shows it too, once per touch sequence.
pub proof fn lemma_status_button_secondary_clicks_show_menu(
    state: StatusButtonActionState,
    event: NativeEvent,
    touch_count: usize,
    native_menu_recently_opened: bool,
)
    ensures
        touch_count < 2 && (event.event_type == EventType::RightMouseDown || event.event_type
            == EventType::RightMouseUp || event.event_type == EventType::OtherMouseDown
            || event.event_type == EventType::OtherMouseUp || ((event.event_type
            == EventType::LeftMouseDown || event.event_type == EventType::LeftMouseUp) && (
        has_control(event.modifier_flags) || event.button_number == 1))) && !(event.event_number
            != 0 && event.event_number == state.last_event_number) ==> status_button_step(
            state,
            event,
            touch_count,
            native_menu_recently_opened,
        ) == (
            StatusButtonActionState {
                last_event_number: event.event_number,
                two_touch_menu_open: false,
            },
            StatusButtonAction::ShowMenu,
        ),
        !state.two_touch_menu_open && touch_count >= 2 ==> status_button_step(
            state,
            event,
            touch_count,
            native_menu_recently_opened,
        ) == (StatusButtonActionState { two_touch_menu_open: true, ..state }, StatusButtonAction::ShowMenu),
{
}

/// One secondary click shows the menu once: when an event with a non-zero
/// event number shows it as a secondary click, the same event delivered
/// again (without a new second touch) does nothing.
pub proof fn lemma_status_button_dedups_event_numbers(
    state: StatusButtonActionState,
    event: NativeEvent,
    touch_count: usize,
    recent: bool,
    again_touch_count: usize,
    again_recent: bool,
)
    requires
        event.event_number != 0,
        !(!state.two_touch_menu_open && touch_count >= 2),
        status_button_step(state, event, touch_count, recent).1 == StatusButtonAction::ShowMenu,
        again_touch_count < 2,
    ensures
        ({
            let next = status_button_step(state, event, touch_count, recent).0;
            status_button_step(next, event, again_touch_count, again_recent).1
                == StatusButtonAction::Nothing
        }),
{
}

/// A plain primary click never shows the menu from the status button; it
/// shows only with a second touch.
pub proof fn lemma_status_button_primary_click_never_shows_menu(
    state: StatusButtonActionState,
    event: NativeEvent,
    touch_count: usize,
    recent: bool,
)
    requires
        is_plain_primary_click(event.event_type, event.modifier_flags, event.button_number),
        touch_count < 2,
    ensures
        status_button_step(state, event, touch_count, recent).1 != StatusButtonAction::ShowMenu,
{
}

/// What the delegate does as the system status menu opens.
#[derive(Clone, Copy, Debug, PartialEq, Eq, Structural)]
pub enum MenuWillOpenAction {
    KeepMenu,
    /// Cancel the menu and toggle the panel instead.
    CancelAndTogglePanel,
}

/// As the system status menu opens at `now` for `event` (if AppKit has a
/// current event): the opening is recorded, and the menu gives way to the
/// panel for a plain primary click.
pub fn status_item_menu_will_open(
    tracker: &mut NativeMenuOpenTracker,
    event: Option<NativeEvent>,
    now: u64,
) -> (action: MenuWillOpenAction)
    ensures
        final(tracker).last_opened_at == Some(now),
        action == match event {
            Some(e) => if is_plain_primary_click(e.event_type, e.modifier_flags, e.button_number) {
                MenuWillOpenAction::CancelAndTogglePanel
            } else {
                MenuWillOpenAction::KeepMenu
            },
            None => MenuWillOpenAction::KeepMenu,
        },
{
    mark_native_menu_opened(tracker, now);
    match event {
        Some(e) => {
            if should_cancel_status_item_system_menu_for_primary_click(&e) {
                MenuWillOpenAction::CancelAndTogglePanel
            } else {
                MenuWillOpenAction::KeepMenu
            }
        },
        None => MenuWillOpenAction::KeepMenu,
    }
}

/// What the secondary-button poll timer remembers between ticks.
#[derive(Clone, Copy, Debug, PartialEq, Eq, Structural)]
pub struct TraySecondaryClickPollState {
    pub secondary_button_was_down: bool,
}

impl TraySecondaryClickPollState {
    /// Before the first poll the button counts as up.
    pub fn new() -> (state: Self)
        ensures
            !state.secondary_button_was_down,
    {
        TraySecondaryClickPollState { secondary_button_was_down: false }
    }
}

/// The next poll state and whether the menu opens, when the button is
/// `is_down` and the cursor on the status item iff `inside`.
pub open spec fn poll_step(state: TraySecondaryClickPollState, is_down: bool, inside: bool) -> (TraySecondaryClickPollState, bool) {
    (
        TraySecondaryClickPollState { secondary_button_was_down: is_down },
        !state.secondary_button_was_down && is_down && inside,
    )
}

/// One poll of the secondary button: remembers its state and opens the
/// menu on a down edge with the cursor on the status item.
pub fn secondary_click_poll_tick(
    state: &mut TraySecondaryClickPollState,
    secondary_button_is_down: bool,
    cursor_inside_status_view: bool,
) -> (open: bool)
    ensures
        (*final(state), open) == poll_step(*old(state), secondary_button_is_down, cursor_inside_status_view),
{
    let secondary_button_was_down = state.secondary_button_was_down;
    state.secondary_button_was_down = secondary_button_is_down;
    should_open_tray_menu_from_polled_button_state(
        secondary_button_was_down,
        secondary_button_is_down,
        cursor_inside_status_view,
    )
}

/// A held secondary button opens the menu at most once: the poll after one
/// that saw the button down opens nothing while it stays down, wherever the
/// cursor is.
pub proof fn lemma_poll_opens_once_per_press(
    state: TraySecondaryClickPollState,
    first_inside: bool,
    second_inside: bool,
)
    ensures
        !poll_step(poll_step(state, true, first_inside).0, true, second_inside).1,
{
}

} // verus!
