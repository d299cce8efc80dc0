//! When the native menu last opened: the guard that keeps several input
//! paths from opening it twice for one click, and from toggling the panel on
//! the mouse up that follows.

use vstd::prelude::*;

verus! {

/// Another open request this soon after the last one is skipped.
pub const RECENT_NATIVE_MENU_OPEN_SKIP_MILLIS: u64 = 200;
/// A primary mouse up this soon after the menu opened belongs to that click.
pub const RECENT_NATIVE_MENU_OPEN_MOUSE_UP_MILLIS: u64 = 700;

/// `now` falls less than `window` after `last`; never when there is no
/// `last`, or when `now` is before it.
pub open spec fn within_window(last: Option<u64>, now: u64, window: u64) -> bool {
    match last {
        Some(l) => l <= now && now - l < window,
        None => false,
    }
}

/// Whether `now` (milliseconds on a monotonic clock) is within `window`
/// milliseconds after `last`.
pub fn instant_is_within_window(last: Option<u64>, now: u64, window: u64) -> (r: bool)
    ensures
        r == within_window(last, now, window),
{
    match last {
        Some(l) => l <= now && now - l < window,
        None => false,
    }
}

/// When the native menu was last opened, in milliseconds on a monotonic clock.
pub struct NativeMenuOpenTracker {
    pub last_opened_at: Option<u64>,
}

impl NativeMenuOpenTracker {
    /// The menu has not opened yet.
    pub fn new() -> (tracker: Self)
        ensures
            tracker.last_opened_at is None,
    {
        NativeMenuOpenTracker { last_opened_at: None }
    }
}

/// Decides whether a request to open the menu at `now` is skipped because the
/// menu opened less than the skip window ago; a request that is not skipped
/// counts as opening the menu at `now`.
pub fn should_skip_recent_native_menu_open(tracker: &mut NativeMenuOpenTracker, now: u64) -> (skip: bool)
    ensures
        skip == within_window(old(tracker).last_opened_at, now, RECENT_NATIVE_MENU_OPEN_SKIP_MILLIS),
        final(tracker).last_opened_at == if skip {
            old(tracker).last_opened_at
        } else {
            Some(now)
        },
{
    if instant_is_within_window(tracker.last_opened_at, now, RECENT_NATIVE_MENU_OPEN_SKIP_MILLIS) {
        return true;
    }
    tracker.last_opened_at = Some(now);
    false
}

/// Records that the menu opened at `now`.
pub fn mark_native_menu_opened(tracker: &mut NativeMenuOpenTracker, now: u64)
    ensures
        final(tracker).last_opened_at == Some(now),
{
    tracker.last_opened_at = Some(now);
}

/// Whether a mouse up at `now` follows the last opening of the menu closely
/// enough to belong to the click that opened it.
pub fn native_menu_recently_opened_for_mouse_up(tracker: &NativeMenuOpenTracker, now: u64) -> (r: bool)
    ensures
        r == within_window(tracker.last_opened_at, now, RECENT_NATIVE_MENU_OPEN_MOUSE_UP_MILLIS),
{
    instant_is_within_window(tracker.last_opened_at, now, RECENT_NATIVE_MENU_OPEN_MOUSE_UP_MILLIS)
}

/// One opening per click: once a request at `first` is let through, every
/// further request from `first` until the skip window has passed is skipped.
pub proof fn lemma_open_requests_debounced(last_opened_at: Option<u64>, first: u64, later: u64)
    requires
        !within_window(last_opened_at, first, RECENT_NATIVE_MENU_OPEN_SKIP_MILLIS),
        first <= later < first + RECENT_NATIVE_MENU_OPEN_SKIP_MILLIS,
    ensures
        within_window(Some(first), later, RECENT_NATIVE_MENU_OPEN_SKIP_MILLIS),
{
}

/// A request at least the skip window after the last opening is let through.
pub proof fn lemma_open_request_after_window_passes(last: u64, now: u64)
    requires
        now >= last + RECENT_NATIVE_MENU_OPEN_SKIP_MILLIS,
    ensures
        !within_window(Some(last), now, RECENT_NATIVE_MENU_OPEN_SKIP_MILLIS),
{
}

/// Every request that the skip window lets through also marks the following
/// mouse up as belonging to the opening click, for the longer mouse-up window.
pub proof fn lemma_opened_menu_claims_mouse_up(opened: u64, now: u64)
    requires
        opened <= now < opened + RECENT_NATIVE_MENU_OPEN_MOUSE_UP_MILLIS,
    ensures
        within_window(Some(opened), now, RECENT_NATIVE_MENU_OPEN_MOUSE_UP_MILLIS),
{
}

/// The windows expire: nothing counts as recent once the window has passed,
/// when the clock reads earlier than the opening, or when the menu never opened.
pub proof fn lemma_window_expires(last: Option<u64>, now: u64, window: u64)
    requires
        last matches Some(l) ==> (now < l || now >= l + window),
    ensures
        !within_window(last, now, window),
{
}

} // verus!
