//! Raw MultitouchSupport fallback: finger tracking from contact frames and
//! path callbacks, staleness, and the timer that opens the context menu once
//! per two-finger sequence on the status item.

use vstd::prelude::*;

verus! {

/// A two-or-more finger count older than this ends the sequence.
pub const RAW_TRACKPAD_IDLE_END_MILLIS: u64 = 160;
/// How long a two-finger frame keeps counting as a two-finger signal.
pub const RAW_TRACKPAD_RECENT_TWO_FINGER_MILLIS: u64 = 300;
/// MultitouchSupport path state: a finger came into range.
pub const RAW_TRACKPAD_PATH_STATE_START_IN_RANGE: i32 = 1;
/// MultitouchSupport path state: a finger touches the surface.
pub const RAW_TRACKPAD_PATH_STATE_TOUCHING: i32 = 4;

/// What the raw trackpad callbacks have reported.
pub struct RawTrackpadTouchState {
    pub active_fingers: usize,
    pub last_update_millis: u64,
    pub last_two_finger_millis: u64,
    pub runtime_started: bool,
    pub callback_frames: u64,
    pub active_path_bits: u64,
}

impl RawTrackpadTouchState {
    /// A state in which nothing has been reported yet.
    pub fn new() -> (state: Self)
        ensures
            state.active_fingers == 0,
            state.last_update_millis == 0,
            state.last_two_finger_millis == 0,
            !state.runtime_started,
            state.callback_frames == 0,
            state.active_path_bits == 0,
    {
        RawTrackpadTouchState {
            active_fingers: 0,
            last_update_millis: 0,
            last_two_finger_millis: 0,
            runtime_started: false,
            callback_frames: 0,
            active_path_bits: 0,
        }
    }
}

/// Claims the start of the raw trackpad listener: marks it started and says
/// whether it already was, so that it is started once.
pub fn claim_raw_trackpad_runtime(state: &mut RawTrackpadTouchState) -> (already_started: bool)
    ensures
        already_started == old(state).runtime_started,
        *final(state) == (RawTrackpadTouchState { runtime_started: true, ..*old(state) }),
{
    let already_started = state.runtime_started;
    state.runtime_started = true;
    already_started
}

/// `now_millis.saturating_sub(last)`.
pub open spec fn millis_since(now_millis: u64, last_millis: u64) -> u64 {
    if now_millis >= last_millis {
        (now_millis - last_millis) as u64
    } else {
        0
    }
}

/// An update stamped `last_update_millis` (zero: never) is at least
/// `max_age_millis` old at `now_millis`.
pub open spec fn update_is_stale(now_millis: u64, last_update_millis: u64, max_age_millis: u64) -> bool {
    last_update_millis > 0 && millis_since(now_millis, last_update_millis) >= max_age_millis
}

/// Whether a stamped update is stale.
pub fn raw_trackpad_update_is_stale(now_millis: u64, last_update_millis: u64, max_age_millis: u64) -> (r: bool)
    ensures
        r == update_is_stale(now_millis, last_update_millis, max_age_millis),
{
    last_update_millis > 0 && now_millis.saturating_sub(last_update_millis) >= max_age_millis
}

/// The finger count of a raw contact frame: negative counts are none.
pub open spec fn normalized_fingers(active_fingers: i32) -> usize {
    if active_fingers < 0 {
        0
    } else {
        active_fingers as usize
    }
}

/// Turns a raw finger count into a count.
pub fn normalize_raw_active_fingers(active_fingers: i32) -> (count: usize)
    ensures
        count == normalized_fingers(active_fingers),
{
    if active_fingers < 0 {
        0
    } else {
        active_fingers as usize
    }
}

/// A contact frame is worth logging on the first frame, or when the finger
/// count changed.
pub fn should_log_raw_callback_frame(frames: u64, previous_fingers: usize, active_fingers: usize) -> (r: bool)
    ensures
        r == (frames == 1 || previous_fingers != active_fingers),
{
    frames == 1 || previous_fingers != active_fingers
}

/// The path states in which a finger counts as active: from coming into
/// range up to touching.
pub open spec fn path_state_is_active(path_state: i32) -> bool {
    RAW_TRACKPAD_PATH_STATE_START_IN_RANGE <= path_state <= RAW_TRACKPAD_PATH_STATE_TOUCHING
}

/// Whether a finger in `path_state` is active.
pub fn raw_trackpad_path_state_is_active(path_state: i32) -> (r: bool)
    ensures
        r == path_state_is_active(path_state),
{
    RAW_TRACKPAD_PATH_STATE_START_IN_RANGE <= path_state && path_state
        <= RAW_TRACKPAD_PATH_STATE_TOUCHING
}

/// The bit that stands for a path id in the active-path set: one of 64, or
/// none for ids outside 0..64.
pub fn raw_trackpad_path_bit(path_id: i32) -> (bit: Option<u64>)
    ensures
        0 <= path_id < 64 <==> bit is Some,
        bit matches Some(b) ==> b == 1u64 << (path_id as u64),
{
    if 0 <= path_id && path_id < 64 {
        Some(1u64 << (path_id as u64))
    } else {
        None
    }
}

} // verus!

verus! {

/// The number of set bits of `bits`.
pub open spec fn bit_count(bits: u64) -> nat
    decreases bits,
{
    if bits == 0 {
        0
    } else {
        (bits % 2) as nat + bit_count(bits / 2)
    }
}

proof fn lemma_bit_count_bound(bits: u64, width: nat)
    requires
        (bits as nat) < vstd::arithmetic::power2::pow2(width),
    ensures
        bit_count(bits) <= width,
    decreases width,
{
    vstd::arithmetic::power2::lemma_pow2_pos(width);
    if bits != 0 {
        if width == 0 {
            vstd::arithmetic::power2::lemma2_to64();
        } else {
            vstd::arithmetic::power2::lemma_pow2_unfold(width);
            lemma_bit_count_bound(bits / 2, (width - 1) as nat);
        }
    }
}

/// The number of active paths in a path set.
pub fn count_active_paths(bits: u64) -> (count: usize)
    ensures
        count == bit_count(bits),
        count <= 64,
{
    proof {
        vstd::arithmetic::power2::lemma2_to64();
        lemma_bit_count_bound(bits, 64);
    }
    let mut rest: u64 = bits;
    let mut count: usize = 0;
    while rest != 0
        invariant
            count + bit_count(rest) == bit_count(bits),
            bit_count(bits) <= 64,
        decreases rest,
    {
        count = count + (rest % 2) as usize;
        rest = rest / 2;
    }
    count
}

/// The path set after a path callback: the path's bit is set when its state
/// is active and cleared otherwise.
pub open spec fn updated_path_bits(bits: u64, bit: u64, active: bool) -> u64 {
    if active {
        bits | bit
    } else {
        bits & !bit
    }
}

/// The touch state after a raw path callback for `path_id` in `path_state`
/// at `now_millis`; ids outside 0..64 change nothing.
pub open spec fn path_callback_state(
    state: RawTrackpadTouchState,
    path_id: i32,
    path_state: i32,
    now_millis: u64,
) -> RawTrackpadTouchState {
    if 0 <= path_id < 64 {
        let bits = updated_path_bits(
            state.active_path_bits,
            1u64 << (path_id as u64),
            path_state_is_active(path_state),
        );
        let fingers = bit_count(bits) as usize;
        RawTrackpadTouchState {
            active_fingers: fingers,
            last_update_millis: now_millis,
            last_two_finger_millis: if fingers >= 2 {
                now_millis
            } else {
                state.last_two_finger_millis
            },
            active_path_bits: bits,
            ..state
        }
    } else {
        state
    }
}

/// Handles a raw path callback: with a touch state installed, the path joins
/// or leaves the active set, and the finger count becomes the size of that
/// set. Without a touch state nothing happens.
pub fn raw_trackpad_path_callback(
    state: &mut Option<RawTrackpadTouchState>,
    path_id: i32,
    path_state: i32,
    now_millis: u64,
)
    ensures
        *final(state) == match *old(state) {
            Some(s) => Some(path_callback_state(s, path_id, path_state, now_millis)),
            None => None,
        },
{
    if let Some(mut touch) = state.take() {
        if let Some(bit) = raw_trackpad_path_bit(path_id) {
            let bits = if raw_trackpad_path_state_is_active(path_state) {
                touch.active_path_bits | bit
            } else {
                touch.active_path_bits & !bit
            };
            let fingers = count_active_paths(bits);
            touch.active_path_bits = bits;
            touch.active_fingers = fingers;
            touch.last_update_millis = now_millis;
            if fingers >= 2 {
                touch.last_two_finger_millis = now_millis;
            }
        }
        *state = Some(touch);
    }
}

/// The frame counter after one more frame; like an atomic counter, it wraps
/// to zero after `u64::MAX`.
pub open spec fn next_frame_count(frames: u64) -> u64 {
    if frames == u64::MAX {
        0
    } else {
        (frames + 1) as u64
    }
}

/// The touch state after a raw contact frame reporting `active_fingers` at
/// `now_millis`.
pub open spec fn contact_callback_state(
    state: RawTrackpadTouchState,
    active_fingers: i32,
    now_millis: u64,
) -> RawTrackpadTouchState {
    let fingers = normalized_fingers(active_fingers);
    RawTrackpadTouchState {
        active_fingers: fingers,
        last_update_millis: now_millis,
        last_two_finger_millis: if fingers >= 2 {
            now_millis
        } else {
            state.last_two_finger_millis
        },
        callback_frames: next_frame_count(state.callback_frames),
        ..state
    }
}

/// Handles a raw contact frame: with a touch state installed, records the
/// finger count and the time, stamps two-finger frames, counts the frame, and
/// says whether the frame is worth logging. Without a touch state nothing
/// happens and nothing is logged.
pub fn raw_trackpad_contact_callback(
    state: &mut Option<RawTrackpadTouchState>,
    active_fingers: i32,
    now_millis: u64,
) -> (log_frame: bool)
    ensures
        *final(state) == match *old(state) {
            Some(s) => Some(contact_callback_state(s, active_fingers, now_millis)),
            None => None,
        },
        log_frame == match *old(state) {
            Some(s) => next_frame_count(s.callback_frames) == 1 || s.active_fingers
                != normalized_fingers(active_fingers),
            None => false,
        },
{
    if let Some(mut touch) = state.take() {
        let fingers = normalize_raw_active_fingers(active_fingers);
        let frames = if touch.callback_frames == u64::MAX {
            0
        } else {
            touch.callback_frames + 1
        };
        touch.callback_frames = frames;
        let previous = touch.active_fingers;
        touch.active_fingers = fingers;
        touch.last_update_millis = now_millis;
        if fingers >= 2 {
            touch.last_two_finger_millis = now_millis;
        }
        *state = Some(touch);
        should_log_raw_callback_frame(frames, previous, fingers)
    } else {
        false
    }
}

} // verus!

verus! {

/// The finger count that is still current at `now_millis`: a count of two or
/// more whose last update is stale counts as zero.
pub open spec fn current_fingers(state: RawTrackpadTouchState, now_millis: u64) -> usize {
    if state.active_fingers < 2 {
        state.active_fingers
    } else if update_is_stale(now_millis, state.last_update_millis, RAW_TRACKPAD_IDLE_END_MILLIS) {
        0
    } else {
        state.active_fingers
    }
}

/// `state` with its finger count replaced.
pub open spec fn with_active_fingers(state: RawTrackpadTouchState, fingers: usize) -> RawTrackpadTouchState {
    RawTrackpadTouchState { active_fingers: fingers, ..state }
}

/// Reads the current finger count; a stale two-or-more count is reset to zero
/// in the state too.
pub fn current_raw_active_fingers(
    state: &mut RawTrackpadTouchState,
    now_millis: u64,
) -> (fingers: usize)
    ensures
        fingers == current_fingers(*old(state), now_millis),
        *final(state) == with_active_fingers(*old(state), fingers),
{
    let active_fingers = state.active_fingers;
    if active_fingers < 2 {
        return active_fingers;
    }
    if raw_trackpad_update_is_stale(
        now_millis,
        state.last_update_millis,
        RAW_TRACKPAD_IDLE_END_MILLIS,
    ) {
        state.active_fingers = 0;
        return 0;
    }
    active_fingers
}

/// A two-finger frame was reported, and less than the recent window ago.
pub open spec fn recent_two_finger(state: RawTrackpadTouchState, now_millis: u64) -> bool {
    state.last_two_finger_millis != 0 && !update_is_stale(
        now_millis,
        state.last_two_finger_millis,
        RAW_TRACKPAD_RECENT_TWO_FINGER_MILLIS,
    )
}

/// Whether a two-finger frame was reported recently.
pub fn recent_raw_two_finger_seen(state: &RawTrackpadTouchState, now_millis: u64) -> (r: bool)
    ensures
        r == recent_two_finger(*state, now_millis),
{
    let last_two_finger_millis = state.last_two_finger_millis;
    if last_two_finger_millis == 0 {
        return false;
    }
    !raw_trackpad_update_is_stale(
        now_millis,
        last_two_finger_millis,
        RAW_TRACKPAD_RECENT_TWO_FINGER_MILLIS,
    )
}

/// A two-finger sequence that touched the status item just ended, and the
/// menu has not been opened for it.
pub fn should_open_raw_trackpad_menu_on_sequence_end(
    two_finger_was_active: bool,
    two_finger_is_active: bool,
    two_finger_sequence_inside_status_view: bool,
    menu_opened_for_sequence: bool,
) -> (r: bool)
    ensures
        r == (two_finger_was_active && !two_finger_is_active && two_finger_sequence_inside_status_view
            && !menu_opened_for_sequence),
{
    two_finger_was_active && !two_finger_is_active && two_finger_sequence_inside_status_view
        && !menu_opened_for_sequence
}

/// Two fingers are down on the status item, and the menu has not been opened
/// for this sequence.
pub fn should_open_raw_trackpad_menu_while_sequence_active(
    two_finger_is_active: bool,
    cursor_inside_status_view: bool,
    menu_opened_for_sequence: bool,
) -> (r: bool)
    ensures
        r == (two_finger_is_active && cursor_inside_status_view && !menu_opened_for_sequence),
{
    two_finger_is_active && cursor_inside_status_view && !menu_opened_for_sequence
}

/// What the raw trackpad menu timer remembers between ticks.
pub struct RawTrackpadMenuTimerState {
    pub two_finger_was_active: bool,
    pub two_finger_sequence_inside_status_view: bool,
    pub menu_opened_for_sequence: bool,
}

impl RawTrackpadMenuTimerState {
    /// No sequence seen yet.
    pub fn new() -> (state: Self)
        ensures
            !state.two_finger_was_active,
            !state.two_finger_sequence_inside_status_view,
            !state.menu_opened_for_sequence,
    {
        RawTrackpadMenuTimerState {
            two_finger_was_active: false,
            two_finger_sequence_inside_status_view: false,
            menu_opened_for_sequence: false,
        }
    }
}

/// What one tick of the raw trackpad menu timer decides.
#[derive(Clone, Copy, Debug, PartialEq, Eq)]
pub enum RawTrackpadTimerAction {
    Idle,
    /// Two fingers are down on the status item: open now.
    OpenWhileSequenceActive,
    /// A sequence that touched the status item ended; `active_fingers` is the
    /// count read on this tick.
    OpenOnSequenceEnd { active_fingers: usize },
}

/// The timer's decision and next state, given whether the two-finger signal
/// is active on this tick, where the cursor is, and the finger count read.
pub open spec fn timer_step(
    timer: RawTrackpadMenuTimerState,
    signal: bool,
    cursor_inside_status_view: bool,
    active_fingers: usize,
) -> (RawTrackpadMenuTimerState, RawTrackpadTimerAction) {
    let inside = timer.two_finger_sequence_inside_status_view || (signal
        && cursor_inside_status_view);
    if signal && cursor_inside_status_view && !timer.menu_opened_for_sequence {
        (
            RawTrackpadMenuTimerState {
                two_finger_was_active: signal,
                two_finger_sequence_inside_status_view: inside,
                menu_opened_for_sequence: true,
            },
            RawTrackpadTimerAction::OpenWhileSequenceActive,
        )
    } else if timer.two_finger_was_active && !signal && inside && !timer.menu_opened_for_sequence {
        (
            RawTrackpadMenuTimerState {
                two_finger_was_active: signal,
                two_finger_sequence_inside_status_view: false,
                menu_opened_for_sequence: false,
            },
            RawTrackpadTimerAction::OpenOnSequenceEnd { active_fingers },
        )
    } else if !signal {
        (
            RawTrackpadMenuTimerState {
                two_finger_was_active: signal,
                two_finger_sequence_inside_status_view: false,
                menu_opened_for_sequence: false,
            },
            RawTrackpadTimerAction::Idle,
        )
    } else {
        (
            RawTrackpadMenuTimerState {
                two_finger_was_active: signal,
                two_finger_sequence_inside_status_view: inside,
                menu_opened_for_sequence: timer.menu_opened_for_sequence,
            },
            RawTrackpadTimerAction::Idle,
        )
    }
}

/// The two-finger signal of a tick: two or more current fingers, or a recent
/// two-finger frame.
pub open spec fn two_finger_signal(touch: RawTrackpadTouchState, now_millis: u64) -> bool {
    current_fingers(touch, now_millis) >= 2 || recent_two_finger(touch, now_millis)
}

/// One tick of the raw trackpad menu timer. The two-finger signal is two or
/// more current fingers or a recent two-finger frame; the menu opens while
/// the signal is active on the status item, or when a signal that touched the
/// status item ends, and at most once per sequence; the sequence is forgotten
/// when the signal ends.
pub fn raw_trackpad_menu_timer_tick(
    timer: &mut RawTrackpadMenuTimerState,
    touch: &mut RawTrackpadTouchState,
    now_millis: u64,
    cursor_inside_status_view: bool,
) -> (action: RawTrackpadTimerAction)
    ensures
        *final(touch) == with_active_fingers(*old(touch), current_fingers(*old(touch), now_millis)),
        old(touch).last_two_finger_millis != 0 && now_millis < old(touch).last_two_finger_millis
            + RAW_TRACKPAD_RECENT_TWO_FINGER_MILLIS && cursor_inside_status_view
            && !old(timer).menu_opened_for_sequence ==> action
            == RawTrackpadTimerAction::OpenWhileSequenceActive,
        old(touch).active_fingers >= 2 && (old(touch).last_update_millis == 0 || now_millis
            < old(touch).last_update_millis + RAW_TRACKPAD_IDLE_END_MILLIS)
            && cursor_inside_status_view && !old(timer).menu_opened_for_sequence ==> action
            == RawTrackpadTimerAction::OpenWhileSequenceActive,
        (*final(timer), action) == timer_step(
            *old(timer),
            two_finger_signal(*old(touch), now_millis),
            cursor_inside_status_view,
            current_fingers(*old(touch), now_millis),
        ),
{
    let active_fingers = current_raw_active_fingers(touch, now_millis);
    let two_finger_is_active = active_fingers >= 2;
    let recent_two_finger_seen = recent_raw_two_finger_seen(touch, now_millis);
    let two_finger_signal_is_active = two_finger_is_active || recent_two_finger_seen;
    let two_finger_was_active = timer.two_finger_was_active;
    timer.two_finger_was_active = two_finger_signal_is_active;
    let sequence_inside_status_view = timer.two_finger_sequence_inside_status_view || (
    two_finger_signal_is_active && cursor_inside_status_view);
    timer.two_finger_sequence_inside_status_view = sequence_inside_status_view;

    if should_open_raw_trackpad_menu_while_sequence_active(
        two_finger_signal_is_active,
        cursor_inside_status_view,
        timer.menu_opened_for_sequence,
    ) {
        timer.menu_opened_for_sequence = true;
        return RawTrackpadTimerAction::OpenWhileSequenceActive;
    }
    if should_open_raw_trackpad_menu_on_sequence_end(
        two_finger_was_active,
        two_finger_signal_is_active,
        sequence_inside_status_view,
        timer.menu_opened_for_sequence,
    ) {
        timer.two_finger_sequence_inside_status_view = false;
        timer.menu_opened_for_sequence = false;
        RawTrackpadTimerAction::OpenOnSequenceEnd { active_fingers }
    } else {
        if !two_finger_signal_is_active {
            timer.two_finger_sequence_inside_status_view = false;
            timer.menu_opened_for_sequence = false;
        }
        RawTrackpadTimerAction::Idle
    }
}

} // verus!

verus! {

/// The two-finger signal of a tick, in terms of the reports: two or more
/// fingers whose count was updated less than the idle window ago (or never
/// stamped), or a two-finger frame reported less than the recent window ago,
/// whatever the current count. A fast tap whose fingers have already lifted
/// still counts.
pub proof fn lemma_raw_trackpad_signal_from_reports(touch: RawTrackpadTouchState, now_millis: u64)
    ensures
        two_finger_signal(touch, now_millis) <==> ((touch.active_fingers >= 2 && (
        touch.last_update_millis == 0 || now_millis < touch.last_update_millis
            + RAW_TRACKPAD_IDLE_END_MILLIS)) || (touch.last_two_finger_millis != 0 && now_millis
            < touch.last_two_finger_millis + RAW_TRACKPAD_RECENT_TWO_FINGER_MILLIS)),
{
}

/// While the two-finger signal is active (by a current two-finger count or a
/// recent two-finger frame) and the cursor is on the status item, a tick opens
/// the menu at once, unless it was already opened for this sequence; and no
/// tick opens it while the signal is off but for the end of a sequence that
/// touched the status item.
pub proof fn lemma_raw_trackpad_active_signal_on_item_opens(
    timer: RawTrackpadMenuTimerState,
    touch: RawTrackpadTouchState,
    now_millis: u64,
    cursor_inside_status_view: bool,
)
    ensures
        ({
            let (next, action) = timer_step(
                timer,
                two_finger_signal(touch, now_millis),
                cursor_inside_status_view,
                current_fingers(touch, now_millis),
            );
            &&& (touch.last_two_finger_millis != 0 && now_millis < touch.last_two_finger_millis
                + RAW_TRACKPAD_RECENT_TWO_FINGER_MILLIS && cursor_inside_status_view
                && !timer.menu_opened_for_sequence) ==> (action
                == RawTrackpadTimerAction::OpenWhileSequenceActive && next.menu_opened_for_sequence)
            &&& (touch.active_fingers >= 2 && (touch.last_update_millis == 0 || now_millis
                < touch.last_update_millis + RAW_TRACKPAD_IDLE_END_MILLIS)
                && cursor_inside_status_view && !timer.menu_opened_for_sequence) ==> (action
                == RawTrackpadTimerAction::OpenWhileSequenceActive && next.menu_opened_for_sequence)
            &&& action == RawTrackpadTimerAction::OpenWhileSequenceActive ==> cursor_inside_status_view
                && !timer.menu_opened_for_sequence
            &&& (action is OpenOnSequenceEnd) ==> timer.two_finger_was_active
                && timer.two_finger_sequence_inside_status_view && !timer.menu_opened_for_sequence
        }),
{
}

/// How many times the timer opens the menu over a run of ticks, the `i`th
/// tick seeing signal `signals[i]` and the cursor inside iff `insides[i]`.
pub open spec fn timer_run_opens(
    timer: RawTrackpadMenuTimerState,
    signals: Seq<bool>,
    insides: Seq<bool>,
) -> nat
    decreases signals.len(),
{
    if signals.len() == 0 {
        0
    } else {
        let (next, action) = timer_step(timer, signals[0], insides[0], 0);
        (if action is Idle {
            0nat
        } else {
            1nat
        }) + timer_run_opens(next, signals.drop_first(), insides.drop_first())
    }
}

/// One two-finger sequence, a run of ticks with the signal active closed by
/// a tick without it, opens the menu at most once; and not at all when the
/// menu was already opened for the sequence before the run.
pub proof fn lemma_raw_trackpad_sequence_opens_at_most_once(
    timer: RawTrackpadMenuTimerState,
    signals: Seq<bool>,
    insides: Seq<bool>,
)
    requires
        signals.len() >= 1,
        insides.len() == signals.len(),
        forall|i: int| 0 <= i < signals.len() - 1 ==> #[trigger] signals[i],
        !signals.last(),
    ensures
        timer_run_opens(timer, signals, insides) <= if timer.menu_opened_for_sequence {
            0nat
        } else {
            1nat
        },
    decreases signals.len(),
{
    if signals.len() > 1 {
        assert(signals[0]);
        let (next, action) = timer_step(timer, signals[0], insides[0], 0);
        let rest = signals.drop_first();
        assert forall|i: int| 0 <= i < rest.len() - 1 implies #[trigger] rest[i] by {
            assert(rest[i] == signals[i + 1]);
        }
        assert(rest.last() == signals.last());
        lemma_raw_trackpad_sequence_opens_at_most_once(next, rest, insides.drop_first());
    } else {
        let (next, action) = timer_step(timer, signals[0], insides[0], 0);
        assert(timer_run_opens(next, signals.drop_first(), insides.drop_first()) == 0);
    }
}

/// A sequence that reaches the status item while it is active opens the menu
/// exactly once, when the menu had not been opened for it before.
pub proof fn lemma_raw_trackpad_sequence_inside_opens_once(
    timer: RawTrackpadMenuTimerState,
    signals: Seq<bool>,
    insides: Seq<bool>,
    k: int,
)
    requires
        signals.len() >= 1,
        insides.len() == signals.len(),
        forall|i: int| 0 <= i < signals.len() - 1 ==> #[trigger] signals[i],
        !signals.last(),
        0 <= k < signals.len() - 1,
        insides[k],
        !timer.menu_opened_for_sequence,
    ensures
        timer_run_opens(timer, signals, insides) == 1,
    decreases signals.len(),
{
    assert(signals[0]);
    let (next, action) = timer_step(timer, signals[0], insides[0], 0);
    let rest = signals.drop_first();
    let rest_insides = insides.drop_first();
    assert forall|i: int| 0 <= i < rest.len() - 1 implies #[trigger] rest[i] by {
        assert(rest[i] == signals[i + 1]);
    }
    assert(rest.last() == signals.last());
    if insides[0] {
        lemma_raw_trackpad_sequence_opens_at_most_once(next, rest, rest_insides);
    } else {
        assert(rest_insides[k - 1] == insides[k]);
        lemma_raw_trackpad_sequence_inside_opens_once(next, rest, rest_insides, k - 1);
    }
}

/// Which ticks of a run open the menu: the `i`th entry is whether the `i`th
/// tick, seeing signal `signals[i]` and the cursor inside iff `insides[i]`,
/// opens it.
pub open spec fn timer_run_opened_ticks(
    timer: RawTrackpadMenuTimerState,
    signals: Seq<bool>,
    insides: Seq<bool>,
) -> Seq<bool>
    decreases signals.len(),
{
    if signals.len() == 0 {
        Seq::empty()
    } else {
        let (next, action) = timer_step(timer, signals[0], insides[0], 0);
        seq![!(action is Idle)] + timer_run_opened_ticks(
            next,
            signals.drop_first(),
            insides.drop_first(),
        )
    }
}

/// The `i`th tick of a sequence is the first one with the signal active and
/// the cursor on the status item.
pub open spec fn first_inside_signal_tick(signals: Seq<bool>, insides: Seq<bool>, i: int) -> bool {
    &&& 0 <= i < signals.len() - 1
    &&& insides[i]
    &&& forall|j: int| 0 <= j < i ==> !#[trigger] insides[j]
}

/// After the menu was opened for a sequence, no later tick of it opens it.
proof fn lemma_opened_sequence_stays_quiet(
    timer: RawTrackpadMenuTimerState,
    signals: Seq<bool>,
    insides: Seq<bool>,
)
    requires
        signals.len() >= 1,
        insides.len() == signals.len(),
        forall|i: int| 0 <= i < signals.len() - 1 ==> #[trigger] signals[i],
        !signals.last(),
        timer.menu_opened_for_sequence,
    ensures
        timer_run_opened_ticks(timer, signals, insides).len() == signals.len(),
        forall|i: int|
            0 <= i < signals.len() ==> !#[trigger] timer_run_opened_ticks(timer, signals, insides)[i],
    decreases signals.len(),
{
    let (next, action) = timer_step(timer, signals[0], insides[0], 0);
    let rest = signals.drop_first();
    let rest_insides = insides.drop_first();
    let tail = timer_run_opened_ticks(next, rest, rest_insides);
    if signals.len() > 1 {
        assert(signals[0]);
        assert forall|i: int| 0 <= i < rest.len() - 1 implies #[trigger] rest[i] by {
            assert(rest[i] == signals[i + 1]);
        }
        assert(rest.last() == signals.last());
        lemma_opened_sequence_stays_quiet(next, rest, rest_insides);
    } else {
        assert(tail =~= Seq::<bool>::empty());
    }
    let all = timer_run_opened_ticks(timer, signals, insides);
    assert(all == seq![!(action is Idle)] + tail);
    assert forall|i: int| 0 <= i < signals.len() implies !#[trigger] all[i] by {
        if i > 0 {
            assert(all[i] == tail[i - 1]);
        }
    }
}

/// A two-finger sequence, a run of ticks with the signal active closed by a
/// tick without it, that starts after the previous one was forgotten opens
/// the menu exactly at the first tick at which the signal is active and the
/// cursor is on the status item, and at no other tick; with no such tick it
/// does not open the menu at all. So it opens once iff the cursor reaches the
/// status item while the signal is active.
pub proof fn lemma_raw_trackpad_sequence_opens_at_first_inside_tick(
    timer: RawTrackpadMenuTimerState,
    signals: Seq<bool>,
    insides: Seq<bool>,
)
    requires
        signals.len() >= 1,
        insides.len() == signals.len(),
        forall|i: int| 0 <= i < signals.len() - 1 ==> #[trigger] signals[i],
        !signals.last(),
        !timer.two_finger_sequence_inside_status_view,
        !timer.menu_opened_for_sequence,
    ensures
        timer_run_opened_ticks(timer, signals, insides).len() == signals.len(),
        forall|i: int|
            0 <= i < signals.len() ==> (#[trigger] timer_run_opened_ticks(timer, signals, insides)[i]
                <==> first_inside_signal_tick(signals, insides, i)),
        timer_run_opens(timer, signals, insides) == if exists|k: int|
            0 <= k < signals.len() - 1 && #[trigger] insides[k] {
            1nat
        } else {
            0nat
        },
    decreases signals.len(),
{
    let (next, action) = timer_step(timer, signals[0], insides[0], 0);
    let rest = signals.drop_first();
    let rest_insides = insides.drop_first();
    let tail = timer_run_opened_ticks(next, rest, rest_insides);
    let all = timer_run_opened_ticks(timer, signals, insides);
    assert(all == seq![!(action is Idle)] + tail);
    if signals.len() == 1 {
        assert(tail =~= Seq::<bool>::empty());
        assert(timer_run_opens(next, rest, rest_insides) == 0);
        assert(!(exists|k: int| 0 <= k < signals.len() - 1 && #[trigger] insides[k]));
    } else {
        assert(signals[0]);
        assert forall|i: int| 0 <= i < rest.len() - 1 implies #[trigger] rest[i] by {
            assert(rest[i] == signals[i + 1]);
        }
        assert(rest.last() == signals.last());
        if insides[0] {
            lemma_opened_sequence_stays_quiet(next, rest, rest_insides);
            lemma_raw_trackpad_sequence_opens_at_most_once(next, rest, rest_insides);
            assert forall|i: int| 0 <= i < signals.len() implies (#[trigger] all[i]
                <==> first_inside_signal_tick(signals, insides, i)) by {
                if i > 0 {
                    assert(all[i] == tail[i - 1]);
                    assert(insides[0]);
                }
            }
            assert(exists|k: int| 0 <= k < signals.len() - 1 && #[trigger] insides[k]) by {
                assert(insides[0]);
            }
        } else {
            lemma_raw_trackpad_sequence_opens_at_first_inside_tick(next, rest, rest_insides);
            assert forall|i: int| 0 <= i < signals.len() implies (#[trigger] all[i]
                <==> first_inside_signal_tick(signals, insides, i)) by {
                if i > 0 {
                    assert(all[i] == tail[i - 1]);
                    assert(rest_insides[i - 1] == insides[i]);
                    if first_inside_signal_tick(signals, insides, i) {
                        assert forall|j: int| 0 <= j < i - 1 implies !#[trigger] rest_insides[j] by {
                            assert(rest_insides[j] == insides[j + 1]);
                        }
                    }
                    if first_inside_signal_tick(rest, rest_insides, i - 1) {
                        assert forall|j: int| 0 <= j < i implies !#[trigger] insides[j] by {
                            if j > 0 {
                                assert(rest_insides[j - 1] == insides[j]);
                            }
                        }
                    }
                }
            }
            if exists|k: int| 0 <= k < signals.len() - 1 && #[trigger] insides[k] {
                let k = choose|k: int| 0 <= k < signals.len() - 1 && #[trigger] insides[k];
                assert(k > 0);
                assert(rest_insides[k - 1] == insides[k]);
                assert(exists|k: int| 0 <= k < rest.len() - 1 && #[trigger] rest_insides[k]);
            }
            if exists|k: int| 0 <= k < rest.len() - 1 && #[trigger] rest_insides[k] {
                let k = choose|k: int| 0 <= k < rest.len() - 1 && #[trigger] rest_insides[k];
                assert(rest_insides[k] == insides[k + 1]);
                assert(exists|k: int| 0 <= k < signals.len() - 1 && #[trigger] insides[k]);
            }
        }
    }
}

/// When the two-finger signal ends, the timer forgets the sequence: it is no
/// longer inside the status item and no menu counts as opened for it.
pub proof fn lemma_raw_trackpad_signal_end_resets_sequence(
    timer: RawTrackpadMenuTimerState,
    cursor_inside_status_view: bool,
    active_fingers: usize,
)
    ensures
        ({
            let (next, action) = timer_step(timer, false, cursor_inside_status_view, active_fingers);
            &&& !next.two_finger_was_active
            &&& !next.two_finger_sequence_inside_status_view
            &&& !next.menu_opened_for_sequence
        }),
{
}

/// A stale finger count ends a sequence: two or more fingers whose last
/// update is older than the idle window read as none.
pub proof fn lemma_raw_trackpad_stale_count_reads_as_none(
    state: RawTrackpadTouchState,
    now_millis: u64,
)
    requires
        state.active_fingers >= 2,
        update_is_stale(now_millis, state.last_update_millis, RAW_TRACKPAD_IDLE_END_MILLIS),
    ensures
        current_fingers(state, now_millis) == 0,
        !(current_fingers(state, now_millis) >= 2),
{
}

} // verus!
