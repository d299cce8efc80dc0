//! CoreGraphics event taps on the status item: where they are installed,
//! which mouse events open the menu from each kind of tap, and which of
//! those events an active tap swallows.

use vstd::prelude::*;

verus! {

/// The CoreGraphics event types the taps tell apart; every other type is `Other`.
#[derive(Clone, Copy, Debug, PartialEq, Eq, Structural)]
pub enum CgEventType {
    LeftMouseDown,
    LeftMouseUp,
    RightMouseDown,
    RightMouseUp,
    OtherMouseDown,
    OtherMouseUp,
    TapDisabledByTimeout,
    TapDisabledByUserInput,
    Other,
}

/// CoreGraphics' number for a mouse event type.
pub open spec fn cg_mouse_event_number(event_type: CgEventType) -> u64 {
    match event_type {
        CgEventType::LeftMouseDown => 1,
        CgEventType::LeftMouseUp => 2,
        CgEventType::RightMouseDown => 3,
        CgEventType::RightMouseUp => 4,
        CgEventType::OtherMouseDown => 25,
        _ => 26,
    }
}

/// A mouse button event type.
pub open spec fn is_mouse_event_type(event_type: CgEventType) -> bool {
    event_type == CgEventType::LeftMouseDown || event_type == CgEventType::LeftMouseUp
        || event_type == CgEventType::RightMouseDown || event_type == CgEventType::RightMouseUp
        || event_type == CgEventType::OtherMouseDown || event_type == CgEventType::OtherMouseUp
}

/// The event-mask bit of a mouse event type: one shifted by its number.
pub fn cg_event_mask(event_type: CgEventType) -> (mask: u64)
    requires
        is_mouse_event_type(event_type),
    ensures
        mask == 1u64 << cg_mouse_event_number(event_type),
{
    let number: u64 = match event_type {
        CgEventType::LeftMouseDown => 1,
        CgEventType::LeftMouseUp => 2,
        CgEventType::RightMouseDown => 3,
        CgEventType::RightMouseUp => 4,
        CgEventType::OtherMouseDown => 25,
        _ => 26,
    };
    1u64 << number
}

/// The control-key bit of CoreGraphics' event flags.
pub const CG_EVENT_FLAG_MASK_CONTROL: u64 = 0x40000;

/// CoreGraphics event flags, as their bits.
#[derive(Clone, Copy, Debug, PartialEq, Eq, Structural)]
pub struct CgEventFlags {
    pub bits: u64,
}

impl CgEventFlags {
    /// No flag.
    pub fn empty() -> (flags: Self)
        ensures
            flags.bits == 0,
    {
        CgEventFlags { bits: 0 }
    }

    /// The control key alone.
    pub fn mask_control() -> (flags: Self)
        ensures
            flags.bits == CG_EVENT_FLAG_MASK_CONTROL,
    {
        CgEventFlags { bits: CG_EVENT_FLAG_MASK_CONTROL }
    }
}

/// The control key is down in `flags`.
pub open spec fn cg_has_control(flags: CgEventFlags) -> bool {
    flags.bits & CG_EVENT_FLAG_MASK_CONTROL == CG_EVENT_FLAG_MASK_CONTROL
}

fn cg_flags_have_control(flags: CgEventFlags) -> (r: bool)
    ensures
        r == cg_has_control(flags),
{
    flags.bits & CG_EVENT_FLAG_MASK_CONTROL == CG_EVENT_FLAG_MASK_CONTROL
}

/// What the taps read off a CoreGraphics event.
#[derive(Clone, Copy, Debug, PartialEq, Eq, Structural)]
pub struct CgEvent {
    pub flags: CgEventFlags,
    pub button_number: i64,
}

/// How a tap is installed.
#[derive(Clone, Copy, Debug, PartialEq, Eq, Structural)]
pub enum TrayEventTapMode {
    /// Can swallow events.
    Active,
    /// Only observes.
    ListenOnly,
}

/// Where a tap is installed.
#[derive(Clone, Copy, Debug, PartialEq, Eq, Structural)]
pub enum CgEventTapLocation {
    HidEventTap,
    SessionEventTap,
    AnnotatedSessionEventTap,
}

/// CoreGraphics tap options.
#[derive(Clone, Copy, Debug, PartialEq, Eq, Structural)]
pub enum CgEventTapOptions {
    Default,
    ListenOnly,
}

/// The taps installed on the status item: active and listen-only at the HID
/// and session locations, and listen-only at the annotated session.
pub fn status_item_event_tap_specs() -> (specs: [(CgEventTapLocation, TrayEventTapMode); 5])
    ensures
        specs@ == seq![
            (CgEventTapLocation::HidEventTap, TrayEventTapMode::Active),
            (CgEventTapLocation::HidEventTap, TrayEventTapMode::ListenOnly),
            (CgEventTapLocation::SessionEventTap, TrayEventTapMode::Active),
            (CgEventTapLocation::SessionEventTap, TrayEventTapMode::ListenOnly),
            (CgEventTapLocation::AnnotatedSessionEventTap, TrayEventTapMode::ListenOnly),
        ],
{
    [
        (CgEventTapLocation::HidEventTap, TrayEventTapMode::Active),
        (CgEventTapLocation::HidEventTap, TrayEventTapMode::ListenOnly),
        (CgEventTapLocation::SessionEventTap, TrayEventTapMode::Active),
        (CgEventTapLocation::SessionEventTap, TrayEventTapMode::ListenOnly),
        (CgEventTapLocation::AnnotatedSessionEventTap, TrayEventTapMode::ListenOnly),
    ]
}

/// The tap options of a mode: active taps use the default options.
pub fn event_tap_options_for_mode(mode: TrayEventTapMode) -> (options: CgEventTapOptions)
    ensures
        options == match mode {
            TrayEventTapMode::Active => CgEventTapOptions::Default,
            TrayEventTapMode::ListenOnly => CgEventTapOptions::ListenOnly,
        },
{
    match mode {
        TrayEventTapMode::Active => CgEventTapOptions::Default,
        TrayEventTapMode::ListenOnly => CgEventTapOptions::ListenOnly,
    }
}

/// Only a failed active tap asks for the Input Monitoring permission.
pub fn should_request_input_monitoring_for_event_tap_failure(mode: TrayEventTapMode) -> (r: bool)
    ensures
        r == (mode == TrayEventTapMode::Active),
{
    mode == TrayEventTapMode::Active
}

/// A secondary-click shape: right or other button down or up, or a left
/// button with control held or reported as button one.
pub open spec fn cg_opens(event_type: CgEventType, flags: CgEventFlags, button_number: i64) -> bool {
    event_type == CgEventType::RightMouseDown || event_type == CgEventType::RightMouseUp
        || event_type == CgEventType::OtherMouseDown || event_type == CgEventType::OtherMouseUp
        || ((event_type == CgEventType::LeftMouseDown || event_type == CgEventType::LeftMouseUp)
        && (cg_has_control(flags) || button_number == 1))
}

/// The mouse-up half of a secondary-click shape.
pub open spec fn cg_passive_opens(event_type: CgEventType, flags: CgEventFlags, button_number: i64) -> bool {
    event_type == CgEventType::RightMouseUp || event_type == CgEventType::OtherMouseUp || (
    event_type == CgEventType::LeftMouseUp && (cg_has_control(flags) || button_number == 1))
}

/// What a tap in `mode` opens on: active taps on either edge of a
/// secondary click, listen-only taps on its mouse up only.
pub open spec fn cg_opens_for_mode(
    mode: TrayEventTapMode,
    event_type: CgEventType,
    flags: CgEventFlags,
    button_number: i64,
) -> bool {
    if mode == TrayEventTapMode::Active {
        cg_opens(event_type, flags, button_number)
    } else {
        cg_passive_opens(event_type, flags, button_number)
    }
}

/// Whether an event of this shape opens the menu from an active tap.
pub fn should_open_tray_menu_from_cg_event_details(
    event_type: CgEventType,
    flags: CgEventFlags,
    button_number: i64,
) -> (r: bool)
    ensures
        r == cg_opens(event_type, flags, button_number),
{
    let control = cg_flags_have_control(flags);
    event_type == CgEventType::RightMouseDown || event_type == CgEventType::RightMouseUp
        || event_type == CgEventType::OtherMouseDown || event_type == CgEventType::OtherMouseUp
        || ((event_type == CgEventType::LeftMouseDown || event_type == CgEventType::LeftMouseUp)
        && (control || button_number == 1))
}

/// The same, for an event that reports button zero.
pub fn should_open_tray_menu_from_cg_event_type(event_type: CgEventType, flags: CgEventFlags) -> (r: bool)
    ensures
        r == cg_opens(event_type, flags, 0),
{
    should_open_tray_menu_from_cg_event_details(event_type, flags, 0)
}

/// Whether `event` of `event_type` opens the menu from an active tap.
pub fn should_open_tray_menu_from_cg_event(event_type: CgEventType, event: &CgEvent) -> (r: bool)
    ensures
        r == cg_opens(event_type, event.flags, event.button_number),
{
    should_open_tray_menu_from_cg_event_details(event_type, event.flags, event.button_number)
}

/// Whether an event of this shape opens the menu from a listen-only tap.
pub fn should_open_tray_menu_from_passive_cg_event_details(
    event_type: CgEventType,
    flags: CgEventFlags,
    button_number: i64,
) -> (r: bool)
    ensures
        r == cg_passive_opens(event_type, flags, button_number),
{
    let control = cg_flags_have_control(flags);
    event_type == CgEventType::RightMouseUp || event_type == CgEventType::OtherMouseUp || (
    event_type == CgEventType::LeftMouseUp && (control || button_number == 1))
}

/// Whether an event of this shape opens the menu from a tap in `mode`.
pub fn should_open_tray_menu_from_cg_event_details_for_tap_mode(
    mode: TrayEventTapMode,
    event_type: CgEventType,
    flags: CgEventFlags,
    button_number: i64,
) -> (r: bool)
    ensures
        r == cg_opens_for_mode(mode, event_type, flags, button_number),
{
    if mode == TrayEventTapMode::Active {
        return should_open_tray_menu_from_cg_event_details(event_type, flags, button_number);
    }
    should_open_tray_menu_from_passive_cg_event_details(event_type, flags, button_number)
}

/// Whether `event` opens the menu from a tap in `mode`.
pub fn should_open_tray_menu_from_cg_event_for_tap_mode(
    mode: TrayEventTapMode,
    event_type: CgEventType,
    event: &CgEvent,
) -> (r: bool)
    ensures
        r == cg_opens_for_mode(mode, event_type, event.flags, event.button_number),
{
    should_open_tray_menu_from_cg_event_details_for_tap_mode(
        mode,
        event_type,
        event.flags,
        event.button_number,
    )
}

/// Whether a tap in `mode` swallows an event of this shape once it opened the
/// menu: active taps swallow the secondary clicks they open on.
pub fn should_swallow_opened_cg_event_details(
    mode: TrayEventTapMode,
    event_type: CgEventType,
    flags: CgEventFlags,
    button_number: i64,
) -> (r: bool)
    ensures
        r == (mode == TrayEventTapMode::Active && cg_opens(event_type, flags, button_number)),
{
    mode == TrayEventTapMode::Active && should_open_tray_menu_from_cg_event_details(
        event_type,
        flags,
        button_number,
    )
}

/// Whether a tap in `mode` swallows `event` once it opened the menu.
pub fn should_swallow_opened_cg_event(mode: TrayEventTapMode, event_type: CgEventType, event: &CgEvent) -> (r: bool)
    ensures
        r == (mode == TrayEventTapMode::Active && cg_opens(event_type, event.flags, event.button_number)),
{
    mode == TrayEventTapMode::Active && should_open_tray_menu_from_cg_event(event_type, event)
}

/// What a tap does with an event.
#[derive(Clone, Copy, Debug, PartialEq, Eq, Structural)]
pub enum EventTapOutcome {
    /// Hand the event on untouched.
    PassThrough,
    /// Open the menu and hand the event on.
    OpenMenu,
    /// Open the menu and drop the event.
    OpenMenuAndSwallow,
}

/// The outcome of a tap callback: the tap-disabled notices pass through;
/// an event that opens the menu for this tap, with the cursor on the status
/// item, opens it, and an active tap also swallows it.
pub open spec fn event_tap_outcome(
    mode: TrayEventTapMode,
    event_type: CgEventType,
    event: CgEvent,
    cursor_inside_status_view: bool,
) -> EventTapOutcome {
    if event_type == CgEventType::TapDisabledByTimeout || event_type
        == CgEventType::TapDisabledByUserInput {
        EventTapOutcome::PassThrough
    } else if cg_opens_for_mode(mode, event_type, event.flags, event.button_number)
        && cursor_inside_status_view {
        if mode == TrayEventTapMode::Active && cg_opens(event_type, event.flags, event.button_number) {
            EventTapOutcome::OpenMenuAndSwallow
        } else {
            EventTapOutcome::OpenMenu
        }
    } else {
        EventTapOutcome::PassThrough
    }
}

/// Decides what the status item's event tap does with an event.
pub fn status_item_event_tap_callback(
    mode: TrayEventTapMode,
    event_type: CgEventType,
    event: &CgEvent,
    cursor_inside_status_view: bool,
) -> (outcome: EventTapOutcome)
    ensures
        outcome == event_tap_outcome(mode, event_type, *event, cursor_inside_status_view),
        !cursor_inside_status_view ==> outcome == EventTapOutcome::PassThrough,
        cursor_inside_status_view && (event_type == CgEventType::RightMouseUp || event_type
            == CgEventType::OtherMouseUp) ==> outcome != EventTapOutcome::PassThrough,
{
    if event_type == CgEventType::TapDisabledByTimeout || event_type
        == CgEventType::TapDisabledByUserInput {
        return EventTapOutcome::PassThrough;
    }
    if should_open_tray_menu_from_cg_event_for_tap_mode(mode, event_type, event)
        && cursor_inside_status_view {
        if should_swallow_opened_cg_event(mode, event_type, event) {
            return EventTapOutcome::OpenMenuAndSwallow;
        }
        return EventTapOutcome::OpenMenu;
    }
    EventTapOutcome::PassThrough
}

/// Taps only swallow what they opened the menu for: a swallowed event came
/// through an active tap, is a secondary-click shape, and the cursor was on
/// the status item; a listen-only tap never swallows.
pub proof fn lemma_event_tap_swallows_only_opened_events(
    mode: TrayEventTapMode,
    event_type: CgEventType,
    event: CgEvent,
    cursor_inside_status_view: bool,
)
    ensures
        event_tap_outcome(mode, event_type, event, cursor_inside_status_view)
            == EventTapOutcome::OpenMenuAndSwallow ==> mode == TrayEventTapMode::Active && cg_opens(
            event_type,
            event.flags,
            event.button_number,
        ) && cursor_inside_status_view,
        mode == TrayEventTapMode::ListenOnly ==> event_tap_outcome(
            mode,
            event_type,
            event,
            cursor_inside_status_view,
        ) != EventTapOutcome::OpenMenuAndSwallow,
{
}

/// A listen-only tap opens on a subset of what an active tap opens on, and
/// never on a mouse down.
pub proof fn lemma_listen_only_taps_open_on_mouse_up(
    event_type: CgEventType,
    flags: CgEventFlags,
    button_number: i64,
)
    ensures
        cg_passive_opens(event_type, flags, button_number) ==> cg_opens(event_type, flags, button_number),
        cg_passive_opens(event_type, flags, button_number) ==> event_type != CgEventType::LeftMouseDown
            && event_type != CgEventType::RightMouseDown && event_type
            != CgEventType::OtherMouseDown,
{
}

/// A tap never opens the menu while the cursor is away from the status item,
/// in either mode. With the cursor on it, a secondary click's mouse up (right
/// or other button, or a left button with control held or reported as button
/// one) opens the menu from every tap, and an active tap also opens on the
/// mouse down and swallows what it opens on; a plain left click opens nothing.
pub proof fn lemma_event_tap_opens_only_on_the_item(
    mode: TrayEventTapMode,
    event_type: CgEventType,
    event: CgEvent,
    cursor_inside_status_view: bool,
)
    ensures
        !cursor_inside_status_view ==> event_tap_outcome(mode, event_type, event, false)
            == EventTapOutcome::PassThrough,
        (event_type == CgEventType::RightMouseUp || event_type == CgEventType::OtherMouseUp || (
        event_type == CgEventType::LeftMouseUp && (cg_has_control(event.flags) || event.button_number
            == 1))) ==> event_tap_outcome(mode, event_type, event, true) == if mode
            == TrayEventTapMode::Active {
            EventTapOutcome::OpenMenuAndSwallow
        } else {
            EventTapOutcome::OpenMenu
        },
        (event_type == CgEventType::RightMouseDown || event_type == CgEventType::OtherMouseDown || (
        event_type == CgEventType::LeftMouseDown && (cg_has_control(event.flags)
            || event.button_number == 1))) ==> event_tap_outcome(mode, event_type, event, true)
            == if mode == TrayEventTapMode::Active {
            EventTapOutcome::OpenMenuAndSwallow
        } else {
            EventTapOutcome::PassThrough
        },
        (event_type == CgEventType::LeftMouseDown || event_type == CgEventType::LeftMouseUp)
            && !cg_has_control(event.flags) && event.button_number != 1 ==> event_tap_outcome(
            mode,
            event_type,
            event,
            cursor_inside_status_view,
        ) == EventTapOutcome::PassThrough,
{
}

} // verus!
