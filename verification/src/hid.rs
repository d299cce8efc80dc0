//! IOHID fallback for secondary clicks: button and contact-count tracking,
//! and the timer decisions that open the context menu from it.

use vstd::prelude::*;

verus! {

/// HID usage page of buttons.
pub const HID_USAGE_PAGE_BUTTON: u32 = 0x09;
/// HID usage of the primary button on the button page.
pub const HID_USAGE_BUTTON_PRIMARY: u32 = 0x01;
/// HID usage of the secondary button on the button page.
pub const HID_USAGE_BUTTON_SECONDARY: u32 = 0x02;
/// HID usage page of digitizers.
pub const HID_USAGE_PAGE_DIGITIZER_U32: u32 = 0x0d;
/// HID usage of the contact count on the digitizer page.
pub const HID_USAGE_DIGITIZER_CONTACT_COUNT: u32 = 0x54;
/// How long a two-contact report keeps counting as a two-finger signal.
pub const HID_RECENT_TWO_CONTACT_MILLIS: u64 = 240;

/// What the HID value callback has seen so far.
pub struct HidSecondaryClickState {
    pub primary_button_is_down: bool,
    pub secondary_button_is_down: bool,
    pub contact_count: usize,
    pub last_two_contact_millis: u64,
    pub value_frames: u64,
    pub runtime_started: bool,
}

impl HidSecondaryClickState {
    /// A state in which nothing has been seen yet.
    pub fn new() -> (state: Self)
        ensures
            !state.primary_button_is_down,
            !state.secondary_button_is_down,
            state.contact_count == 0,
            state.last_two_contact_millis == 0,
            state.value_frames == 0,
            !state.runtime_started,
    {
        HidSecondaryClickState {
            primary_button_is_down: false,
            secondary_button_is_down: false,
            contact_count: 0,
            last_two_contact_millis: 0,
            value_frames: 0,
            runtime_started: false,
        }
    }
}

/// Claims the start of the IOHID listener: marks it started and says whether
/// it already was, so that it is started once.
pub fn claim_hid_runtime(state: &mut HidSecondaryClickState) -> (already_started: bool)
    ensures
        already_started == old(state).runtime_started,
        *final(state) == (HidSecondaryClickState { runtime_started: true, ..*old(state) }),
{
    let already_started = state.runtime_started;
    state.runtime_started = true;
    already_started
}

/// `usage_page`/`usage` name the button `expected_usage`.
pub fn is_button_hid_usage(usage_page: u32, usage: u32, expected_usage: u32) -> (r: bool)
    ensures
        r == (usage_page == HID_USAGE_PAGE_BUTTON && usage == expected_usage),
{
    usage_page == HID_USAGE_PAGE_BUTTON && usage == expected_usage
}

/// `usage_page`/`usage` name the secondary button.
pub fn is_secondary_button_hid_usage(usage_page: u32, usage: u32) -> (r: bool)
    ensures
        r == (usage_page == HID_USAGE_PAGE_BUTTON && usage == HID_USAGE_BUTTON_SECONDARY),
{
    is_button_hid_usage(usage_page, usage, HID_USAGE_BUTTON_SECONDARY)
}

/// `usage_page`/`usage` name the digitizer contact count.
pub fn is_contact_count_hid_usage(usage_page: u32, usage: u32) -> (r: bool)
    ensures
        r == (usage_page == HID_USAGE_PAGE_DIGITIZER_U32 && usage
            == HID_USAGE_DIGITIZER_CONTACT_COUNT),
{
    usage_page == HID_USAGE_PAGE_DIGITIZER_U32 && usage == HID_USAGE_DIGITIZER_CONTACT_COUNT
}

} // verus!

verus! {

/// The contact count that an integer HID value reports: negative values
/// and values that do not fit in `usize` count as no contact.
pub open spec fn normalized_contact_count(value: i64) -> usize {
    if value <= 0 {
        0
    } else if value <= usize::MAX {
        value as usize
    } else {
        0
    }
}

/// Turns a raw HID contact-count value into a count.
pub fn normalize_hid_contact_count(value: i64) -> (count: usize)
    ensures
        count == normalized_contact_count(value),
{
    if value <= 0 {
        0
    } else if (value as u64) <= (usize::MAX as u64) {
        value as usize
    } else {
        0
    }
}

/// The two buttons whose HID state is tracked.
#[derive(Clone, Copy, Debug, PartialEq, Eq)]
pub enum HidButton {
    Primary,
    Secondary,
}

/// Whether `button` is down in `state`.
pub open spec fn button_is_down(state: HidSecondaryClickState, button: HidButton) -> bool {
    match button {
        HidButton::Primary => state.primary_button_is_down,
        HidButton::Secondary => state.secondary_button_is_down,
    }
}

/// Records a HID value for `button`: the button is down iff the value is
/// non-zero, and one more value frame has been seen. The result says whether
/// the change is worth logging: on the first frame, or when the button
/// changed.
pub fn update_hid_button_state(
    state: &mut HidSecondaryClickState,
    button: HidButton,
    integer_value: i64,
) -> (log_change: bool)
    requires
        old(state).value_frames < u64::MAX,
    ensures
        button_is_down(*final(state), button) == (integer_value != 0),
        button_is_down(*final(state), other_button(button)) == button_is_down(
            *old(state),
            other_button(button),
        ),
        final(state).value_frames == old(state).value_frames + 1,
        final(state).contact_count == old(state).contact_count,
        final(state).last_two_contact_millis == old(state).last_two_contact_millis,
        final(state).runtime_started == old(state).runtime_started,
        log_change == (final(state).value_frames == 1 || button_is_down(*old(state), button)
            != (integer_value != 0)),
{
    let is_down = integer_value != 0;
    let previous = match button {
        HidButton::Primary => {
            let previous = state.primary_button_is_down;
            state.primary_button_is_down = is_down;
            previous
        },
        HidButton::Secondary => {
            let previous = state.secondary_button_is_down;
            state.secondary_button_is_down = is_down;
            previous
        },
    };
    state.value_frames = state.value_frames + 1;
    state.value_frames == 1 || previous != is_down
}

/// The button that is not `button`.
pub open spec fn other_button(button: HidButton) -> HidButton {
    match button {
        HidButton::Primary => HidButton::Secondary,
        HidButton::Secondary => HidButton::Primary,
    }
}

/// Records a HID contact-count value seen at `now_millis`. Two or more
/// contacts also stamp the time of the last two-contact report. The result
/// says whether the count changed.
pub fn update_hid_contact_count(
    state: &mut HidSecondaryClickState,
    integer_value: i64,
    now_millis: u64,
) -> (changed: bool)
    ensures
        final(state).contact_count == normalized_contact_count(integer_value),
        final(state).last_two_contact_millis == if normalized_contact_count(integer_value) >= 2 {
            now_millis
        } else {
            old(state).last_two_contact_millis
        },
        final(state).primary_button_is_down == old(state).primary_button_is_down,
        final(state).secondary_button_is_down == old(state).secondary_button_is_down,
        final(state).value_frames == old(state).value_frames,
        final(state).runtime_started == old(state).runtime_started,
        changed == (old(state).contact_count != normalized_contact_count(integer_value)),
{
    let contact_count = normalize_hid_contact_count(integer_value);
    let previous = state.contact_count;
    state.contact_count = contact_count;
    if contact_count >= 2 {
        state.last_two_contact_millis = now_millis;
    }
    previous != contact_count
}

/// A two-contact report was seen, and less than `max_age_millis` ago.
pub open spec fn recent_two_contact(state: HidSecondaryClickState, now_millis: u64, max_age_millis: u64) -> bool {
    state.last_two_contact_millis > 0 && (if now_millis >= state.last_two_contact_millis {
        now_millis - state.last_two_contact_millis
    } else {
        0
    }) < max_age_millis
}

/// Two contacts are down now, or were reported recently.
pub fn hid_two_contact_signal_is_active(
    state: &HidSecondaryClickState,
    now_millis: u64,
    max_age_millis: u64,
) -> (r: bool)
    ensures
        r == (state.contact_count >= 2 || recent_two_contact(*state, now_millis, max_age_millis)),
{
    state.contact_count >= 2 || recent_hid_two_contact_seen(state, now_millis, max_age_millis)
}

/// A two-contact report was seen less than `max_age_millis` before `now_millis`.
pub fn recent_hid_two_contact_seen(
    state: &HidSecondaryClickState,
    now_millis: u64,
    max_age_millis: u64,
) -> (r: bool)
    ensures
        r == recent_two_contact(*state, now_millis, max_age_millis),
{
    let last_two_contact_millis = state.last_two_contact_millis;
    last_two_contact_millis > 0 && now_millis.saturating_sub(last_two_contact_millis)
        < max_age_millis
}

/// The secondary button went down just now, with the cursor on the status item.
pub fn should_open_menu_from_hid_button_state(
    secondary_button_was_down: bool,
    secondary_button_is_down: bool,
    cursor_inside_status_view: bool,
) -> (r: bool)
    ensures
        r == (!secondary_button_was_down && secondary_button_is_down && cursor_inside_status_view),
{
    !secondary_button_was_down && secondary_button_is_down && cursor_inside_status_view
}

/// The primary button went down just now while two fingers are on the
/// trackpad, with the cursor on the status item.
pub fn should_open_menu_from_hid_primary_two_contact_state(
    primary_button_was_down: bool,
    primary_button_is_down: bool,
    two_contact_signal_is_active: bool,
    cursor_inside_status_view: bool,
) -> (r: bool)
    ensures
        r == (!primary_button_was_down && primary_button_is_down && two_contact_signal_is_active
            && cursor_inside_status_view),
{
    !primary_button_was_down && primary_button_is_down && two_contact_signal_is_active
        && cursor_inside_status_view
}

/// HID usage page of generic desktop controls.
pub const HID_USAGE_PAGE_DESKTOP: i32 = 0x01;
/// HID usage page of digitizers, as IOKit's matching dictionaries take it.
pub const HID_USAGE_PAGE_DIGITIZER: i32 = 0x0d;
/// HID usage of a mouse on the desktop page.
pub const HID_USAGE_MOUSE: i32 = 0x02;
/// HID usage of a pointer on the desktop page.
pub const HID_USAGE_POINTER: i32 = 0x01;
/// HID usage of a touchpad on the digitizer page.
pub const HID_USAGE_TOUCHPAD: i32 = 0x05;

/// The (usage page, usage) pairs of the devices the HID manager matches:
/// mice, pointers and touchpads.
pub fn pointer_device_matching_usages() -> (usages: [(i32, i32); 3])
    ensures
        usages@ == seq![
            (HID_USAGE_PAGE_DESKTOP, HID_USAGE_MOUSE),
            (HID_USAGE_PAGE_DESKTOP, HID_USAGE_POINTER),
            (HID_USAGE_PAGE_DIGITIZER, HID_USAGE_TOUCHPAD),
        ],
{
    [
        (HID_USAGE_PAGE_DESKTOP, HID_USAGE_MOUSE),
        (HID_USAGE_PAGE_DESKTOP, HID_USAGE_POINTER),
        (HID_USAGE_PAGE_DIGITIZER, HID_USAGE_TOUCHPAD),
    ]
}

/// An IOKit status is success iff it is zero.
pub fn iohid_status_is_success(status: i32) -> (r: bool)
    ensures
        r == (status == 0),
{
    status == 0
}

/// What a HID value callback did to the state, for the log.
#[derive(Clone, Copy, Debug, PartialEq, Eq)]
pub enum HidValueUpdate {
    /// The value was not a success, or not about a tracked element.
    Ignored,
    /// A button value; `log_change` as `update_hid_button_state` returns it.
    Button { button: HidButton, log_change: bool },
    /// A contact-count value; `changed` as `update_hid_contact_count` returns it.
    ContactCount { changed: bool },
}

/// The element that a usage page and usage name, if the HID fallback tracks it.
pub open spec fn tracked_element(usage_page: u32, usage: u32) -> Option<Option<HidButton>> {
    if usage_page == HID_USAGE_PAGE_BUTTON && usage == HID_USAGE_BUTTON_PRIMARY {
        Some(Some(HidButton::Primary))
    } else if usage_page == HID_USAGE_PAGE_BUTTON && usage == HID_USAGE_BUTTON_SECONDARY {
        Some(Some(HidButton::Secondary))
    } else if usage_page == HID_USAGE_PAGE_DIGITIZER_U32 && usage
        == HID_USAGE_DIGITIZER_CONTACT_COUNT {
        Some(None)
    } else {
        None
    }
}

/// Handles one IOHID input value (once the callback has a context, a value
/// and its element): a successful value for the primary or secondary button
/// updates that button, one for the contact count updates the count, and
/// anything else leaves the state alone.
pub fn hid_secondary_click_value_callback(
    state: &mut HidSecondaryClickState,
    result: i32,
    usage_page: u32,
    usage: u32,
    integer_value: i64,
    now_millis: u64,
) -> (update: HidValueUpdate)
    requires
        old(state).value_frames < u64::MAX,
    ensures
        result != 0 || tracked_element(usage_page, usage) is None ==> update == HidValueUpdate::Ignored
            && *final(state) == *old(state),
        result == 0 && tracked_element(usage_page, usage) == Some(Some(HidButton::Primary)) ==> (
        update matches HidValueUpdate::Button { button, .. } && button == HidButton::Primary),
        result == 0 && tracked_element(usage_page, usage) == Some(Some(HidButton::Secondary)) ==> (
        update matches HidValueUpdate::Button { button, .. } && button == HidButton::Secondary),
        result == 0 && tracked_element(usage_page, usage) == Some(None::<HidButton>) ==> (
        update is ContactCount),
        update matches HidValueUpdate::Button { button, log_change } ==> {
            &&& button_is_down(*final(state), button) == (integer_value != 0)
            &&& button_is_down(*final(state), other_button(button)) == button_is_down(
                *old(state),
                other_button(button),
            )
            &&& final(state).value_frames == old(state).value_frames + 1
            &&& final(state).contact_count == old(state).contact_count
            &&& final(state).last_two_contact_millis == old(state).last_two_contact_millis
            &&& final(state).runtime_started == old(state).runtime_started
            &&& log_change == (final(state).value_frames == 1 || button_is_down(*old(state), button)
                != (integer_value != 0))
        },
        update matches HidValueUpdate::ContactCount { changed } ==> {
            &&& final(state).contact_count == normalized_contact_count(integer_value)
            &&& final(state).last_two_contact_millis == if normalized_contact_count(integer_value)
                >= 2 {
                now_millis
            } else {
                old(state).last_two_contact_millis
            }
            &&& final(state).primary_button_is_down == old(state).primary_button_is_down
            &&& final(state).secondary_button_is_down == old(state).secondary_button_is_down
            &&& final(state).value_frames == old(state).value_frames
            &&& final(state).runtime_started == old(state).runtime_started
            &&& changed == (old(state).contact_count != normalized_contact_count(integer_value))
        },
{
    if !iohid_status_is_success(result) {
        return HidValueUpdate::Ignored;
    }
    if is_button_hid_usage(usage_page, usage, HID_USAGE_BUTTON_PRIMARY) {
        let log_change = update_hid_button_state(state, HidButton::Primary, integer_value);
        HidValueUpdate::Button { button: HidButton::Primary, log_change }
    } else if is_secondary_button_hid_usage(usage_page, usage) {
        let log_change = update_hid_button_state(state, HidButton::Secondary, integer_value);
        HidValueUpdate::Button { button: HidButton::Secondary, log_change }
    } else if is_contact_count_hid_usage(usage_page, usage) {
        let changed = update_hid_contact_count(state, integer_value, now_millis);
        HidValueUpdate::ContactCount { changed }
    } else {
        HidValueUpdate::Ignored
    }
}

} // verus!

verus! {

/// The button states that the menu timer saw on its previous tick.
pub struct HidSecondaryClickTimerState {
    pub primary_button_was_down: bool,
    pub secondary_button_was_down: bool,
}

impl HidSecondaryClickTimerState {
    /// Before the first tick both buttons count as up.
    pub fn new() -> (state: Self)
        ensures
            !state.primary_button_was_down,
            !state.secondary_button_was_down,
    {
        HidSecondaryClickTimerState { primary_button_was_down: false, secondary_button_was_down: false }
    }
}

/// What one tick of the HID menu timer decides.
#[derive(Clone, Copy, Debug, PartialEq, Eq)]
pub enum HidTimerAction {
    Idle,
    /// The secondary button went down on the status item.
    OpenFromSecondaryButton,
    /// The primary button went down on the status item with two fingers down.
    OpenFromPrimaryTwoContact,
}

/// The action of a tick, from the previous and current button states.
pub open spec fn hid_timer_action(
    timer: HidSecondaryClickTimerState,
    click: HidSecondaryClickState,
    now_millis: u64,
    cursor_inside_status_view: bool,
) -> HidTimerAction {
    if !timer.secondary_button_was_down && click.secondary_button_is_down
        && cursor_inside_status_view {
        HidTimerAction::OpenFromSecondaryButton
    } else if !timer.primary_button_was_down && click.primary_button_is_down && (
    click.contact_count >= 2 || recent_two_contact(click, now_millis, HID_RECENT_TWO_CONTACT_MILLIS))
        && cursor_inside_status_view {
        HidTimerAction::OpenFromPrimaryTwoContact
    } else {
        HidTimerAction::Idle
    }
}

/// One tick of the HID menu timer: remembers the current button states and
/// opens the menu on a secondary-button down edge, or else on a primary-button
/// down edge while a two-contact signal is active, with the cursor on the
/// status item either way.
pub fn hid_secondary_click_timer_tick(
    timer: &mut HidSecondaryClickTimerState,
    click: &HidSecondaryClickState,
    now_millis: u64,
    cursor_inside_status_view: bool,
) -> (action: HidTimerAction)
    ensures
        final(timer).primary_button_was_down == click.primary_button_is_down,
        final(timer).secondary_button_was_down == click.secondary_button_is_down,
        !old(timer).secondary_button_was_down && click.secondary_button_is_down
            && cursor_inside_status_view ==> action == HidTimerAction::OpenFromSecondaryButton,
        !(!old(timer).secondary_button_was_down && click.secondary_button_is_down)
            && !old(timer).primary_button_was_down && click.primary_button_is_down && (
        click.contact_count >= 2 || (click.last_two_contact_millis > 0 && now_millis
            < click.last_two_contact_millis + HID_RECENT_TWO_CONTACT_MILLIS))
            && cursor_inside_status_view ==> action == HidTimerAction::OpenFromPrimaryTwoContact,
        action == hid_timer_action(*old(timer), *click, now_millis, cursor_inside_status_view),
{
    let primary_button_is_down = click.primary_button_is_down;
    let secondary_button_is_down = click.secondary_button_is_down;
    let primary_button_was_down = timer.primary_button_was_down;
    timer.primary_button_was_down = primary_button_is_down;
    let secondary_button_was_down = timer.secondary_button_was_down;
    timer.secondary_button_was_down = secondary_button_is_down;
    let two_contact_signal_is_active = hid_two_contact_signal_is_active(
        click,
        now_millis,
        HID_RECENT_TWO_CONTACT_MILLIS,
    );
    if should_open_menu_from_hid_button_state(
        secondary_button_was_down,
        secondary_button_is_down,
        cursor_inside_status_view,
    ) {
        HidTimerAction::OpenFromSecondaryButton
    } else if should_open_menu_from_hid_primary_two_contact_state(
        primary_button_was_down,
        primary_button_is_down,
        two_contact_signal_is_active,
        cursor_inside_status_view,
    ) {
        HidTimerAction::OpenFromPrimaryTwoContact
    } else {
        HidTimerAction::Idle
    }
}

/// A held button opens the menu at most once: after any tick, a further tick
/// that sees the same button states decides nothing, wherever the cursor is
/// and whatever the time.
pub proof fn lemma_hid_timer_opens_only_on_down_edges(
    timer: HidSecondaryClickTimerState,
    click: HidSecondaryClickState,
    now_millis: u64,
    cursor_inside_status_view: bool,
)
    requires
        timer.primary_button_was_down == click.primary_button_is_down,
        timer.secondary_button_was_down == click.secondary_button_is_down,
    ensures
        hid_timer_action(timer, click, now_millis, cursor_inside_status_view)
            == HidTimerAction::Idle,
{
}

/// What a HID timer tick decides, in terms of the buttons and contacts: with
/// the cursor on the status item, a secondary-button down edge opens the menu;
/// otherwise a primary-button down edge opens it while two or more contacts
/// are down now or a two-contact report came less than the recent window ago
/// (so two fingers that rest on the trackpad before the click count); every
/// other tick does nothing.
pub proof fn lemma_hid_timer_opens_on_down_edges(
    timer: HidSecondaryClickTimerState,
    click: HidSecondaryClickState,
    now_millis: u64,
    cursor_inside_status_view: bool,
)
    ensures
        ({
            let secondary_edge = !timer.secondary_button_was_down && click.secondary_button_is_down;
            let primary_edge = !timer.primary_button_was_down && click.primary_button_is_down;
            let two_contacts = click.contact_count >= 2 || (click.last_two_contact_millis > 0
                && now_millis < click.last_two_contact_millis + HID_RECENT_TWO_CONTACT_MILLIS);
            hid_timer_action(timer, click, now_millis, cursor_inside_status_view) == if !cursor_inside_status_view {
                HidTimerAction::Idle
            } else if secondary_edge {
                HidTimerAction::OpenFromSecondaryButton
            } else if primary_edge && two_contacts {
                HidTimerAction::OpenFromPrimaryTwoContact
            } else {
                HidTimerAction::Idle
            }
        }),
{
}

/// The menu never opens from the HID timer while the cursor is away from the
/// status item.
pub proof fn lemma_hid_timer_needs_cursor_inside(
    timer: HidSecondaryClickTimerState,
    click: HidSecondaryClickState,
    now_millis: u64,
)
    ensures
        hid_timer_action(timer, click, now_millis, false) == HidTimerAction::Idle,
{
}

} // verus!
