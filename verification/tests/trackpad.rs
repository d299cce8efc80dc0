use openusage_tray::trackpad::{
    claim_raw_trackpad_runtime, current_raw_active_fingers, normalize_raw_active_fingers, raw_trackpad_contact_callback,
    raw_trackpad_menu_timer_tick, raw_trackpad_path_bit, raw_trackpad_path_callback,
    raw_trackpad_path_state_is_active, raw_trackpad_update_is_stale, recent_raw_two_finger_seen,
    should_log_raw_callback_frame, should_open_raw_trackpad_menu_on_sequence_end,
    should_open_raw_trackpad_menu_while_sequence_active, RawTrackpadMenuTimerState,
    RawTrackpadTimerAction, RawTrackpadTouchState, RAW_TRACKPAD_PATH_STATE_START_IN_RANGE,
    RAW_TRACKPAD_PATH_STATE_TOUCHING,
};

#[test]
fn raw_trackpad_menu_opens_when_two_finger_sequence_ends_inside_status_view() {
    assert!(should_open_raw_trackpad_menu_on_sequence_end(
        true, false, true, false
    ));
    assert!(!should_open_raw_trackpad_menu_on_sequence_end(
        false, true, true, false
    ));
    assert!(!should_open_raw_trackpad_menu_on_sequence_end(
        true, true, true, false
    ));
    assert!(!should_open_raw_trackpad_menu_on_sequence_end(
        true, false, false, false
    ));
    assert!(!should_open_raw_trackpad_menu_on_sequence_end(
        true, false, true, true
    ));
}

#[test]
fn raw_trackpad_menu_opens_while_two_fingers_are_active_inside_status_view() {
    assert!(should_open_raw_trackpad_menu_while_sequence_active(
        true, true, false
    ));
    assert!(!should_open_raw_trackpad_menu_while_sequence_active(
        true, true, true
    ));
    assert!(!should_open_raw_trackpad_menu_while_sequence_active(
        true, false, false
    ));
    assert!(!should_open_raw_trackpad_menu_while_sequence_active(
        false, true, false
    ));
}

#[test]
fn stale_raw_trackpad_update_ends_two_finger_sequence() {
    assert!(!raw_trackpad_update_is_stale(100, 0, 160));
    assert!(!raw_trackpad_update_is_stale(259, 100, 160));
    assert!(raw_trackpad_update_is_stale(260, 100, 160));
}

#[test]
fn recent_raw_two_finger_seen_covers_fast_taps() {
    let mut state = RawTrackpadTouchState::new();
    assert!(!recent_raw_two_finger_seen(&state, 100));

    state.last_two_finger_millis = 100;
    assert!(recent_raw_two_finger_seen(&state, 399));
    assert!(!recent_raw_two_finger_seen(&state, 400));
}

#[test]
fn raw_trackpad_callback_logs_first_frame_and_finger_changes() {
    assert_eq!(normalize_raw_active_fingers(2), 2);
    assert_eq!(normalize_raw_active_fingers(-1), 0);
    assert!(should_log_raw_callback_frame(1, 0, 0));
    assert!(should_log_raw_callback_frame(2, 1, 2));
    assert!(!should_log_raw_callback_frame(2, 2, 2));
}

#[test]
fn raw_trackpad_path_states_track_active_fingers() {
    assert!(raw_trackpad_path_state_is_active(
        RAW_TRACKPAD_PATH_STATE_START_IN_RANGE
    ));
    assert!(raw_trackpad_path_state_is_active(
        RAW_TRACKPAD_PATH_STATE_TOUCHING
    ));
    assert!(!raw_trackpad_path_state_is_active(5));
    assert_eq!(raw_trackpad_path_bit(0), Some(1));
    assert_eq!(raw_trackpad_path_bit(2), Some(4));
    assert_eq!(raw_trackpad_path_bit(-1), None);
    assert_eq!(raw_trackpad_path_bit(64), None);
}

#[test]
fn raw_trackpad_path_callback_accepts_current_multitouch_abi() {
    let mut no_state: Option<RawTrackpadTouchState> = None;
    raw_trackpad_path_callback(&mut no_state, 0, RAW_TRACKPAD_PATH_STATE_TOUCHING, 0);
    assert!(no_state.is_none());
}

#[test]
fn raw_trackpad_callback_accepts_current_multitouch_abi() {
    let mut no_state: Option<RawTrackpadTouchState> = None;
    assert!(!raw_trackpad_contact_callback(&mut no_state, 0, 0));
    assert!(no_state.is_none());
}

#[test]
fn raw_trackpad_contact_frames_update_state() {
    let mut state = Some(RawTrackpadTouchState::new());
    assert!(raw_trackpad_contact_callback(&mut state, 0, 10));
    assert!(raw_trackpad_contact_callback(&mut state, 2, 20));
    assert!(!raw_trackpad_contact_callback(&mut state, 2, 30));
    let touch = state.unwrap();
    assert_eq!(touch.active_fingers, 2);
    assert_eq!(touch.last_update_millis, 30);
    assert_eq!(touch.last_two_finger_millis, 30);
    assert_eq!(touch.callback_frames, 3);
}

#[test]
fn raw_trackpad_paths_count_fingers() {
    let mut state = Some(RawTrackpadTouchState::new());
    raw_trackpad_path_callback(&mut state, 3, RAW_TRACKPAD_PATH_STATE_TOUCHING, 10);
    assert_eq!(state.as_ref().unwrap().active_fingers, 1);
    raw_trackpad_path_callback(&mut state, 5, 2, 20);
    assert_eq!(state.as_ref().unwrap().active_fingers, 2);
    assert_eq!(state.as_ref().unwrap().last_two_finger_millis, 20);
    raw_trackpad_path_callback(&mut state, 3, 7, 30);
    assert_eq!(state.as_ref().unwrap().active_fingers, 1);
    assert_eq!(state.as_ref().unwrap().active_path_bits, 1 << 5);
    raw_trackpad_path_callback(&mut state, 99, RAW_TRACKPAD_PATH_STATE_TOUCHING, 40);
    assert_eq!(state.as_ref().unwrap().last_update_millis, 30);
}

#[test]
fn stale_finger_counts_read_as_zero() {
    let mut state = RawTrackpadTouchState::new();
    state.active_fingers = 2;
    state.last_update_millis = 100;
    assert_eq!(current_raw_active_fingers(&mut state, 200), 2);
    assert_eq!(current_raw_active_fingers(&mut state, 260), 0);
    assert_eq!(state.active_fingers, 0);
}

#[test]
fn raw_trackpad_timer_opens_once_per_sequence() {
    let mut timer = RawTrackpadMenuTimerState::new();
    let mut touch = RawTrackpadTouchState::new();
    touch.active_fingers = 2;
    touch.last_update_millis = 10;
    touch.last_two_finger_millis = 10;
    assert_eq!(
        raw_trackpad_menu_timer_tick(&mut timer, &mut touch, 20, true),
        RawTrackpadTimerAction::OpenWhileSequenceActive
    );
    assert_eq!(raw_trackpad_menu_timer_tick(&mut timer, &mut touch, 30, true), RawTrackpadTimerAction::Idle);
    touch.active_fingers = 0;
    touch.last_update_millis = 500;
    assert_eq!(raw_trackpad_menu_timer_tick(&mut timer, &mut touch, 500, true), RawTrackpadTimerAction::Idle);
    assert!(!timer.menu_opened_for_sequence);
    assert!(!timer.two_finger_sequence_inside_status_view);
}

#[test]
fn raw_trackpad_timer_opens_at_sequence_end_when_it_touched_the_item() {
    let mut timer = RawTrackpadMenuTimerState::new();
    timer.two_finger_was_active = true;
    timer.two_finger_sequence_inside_status_view = true;
    let mut touch = RawTrackpadTouchState::new();
    assert_eq!(
        raw_trackpad_menu_timer_tick(&mut timer, &mut touch, 1000, false),
        RawTrackpadTimerAction::OpenOnSequenceEnd { active_fingers: 0 }
    );
    assert!(!timer.two_finger_sequence_inside_status_view);
}

#[test]
fn raw_trackpad_runtime_is_claimed_once() {
    let mut state = RawTrackpadTouchState::new();
    assert!(!claim_raw_trackpad_runtime(&mut state));
    assert!(state.runtime_started);
    assert!(claim_raw_trackpad_runtime(&mut state));
}

#[test]
fn raw_trackpad_frame_counter_wraps() {
    let mut touch = RawTrackpadTouchState::new();
    touch.callback_frames = u64::MAX;
    let mut state = Some(touch);
    assert!(!raw_trackpad_contact_callback(&mut state, 0, 10));
    assert_eq!(state.as_ref().unwrap().callback_frames, 0);
    assert!(raw_trackpad_contact_callback(&mut state, 0, 20));
    assert_eq!(state.as_ref().unwrap().callback_frames, 1);
}

fn two_fingers_at(touch: &mut RawTrackpadTouchState, now: u64) {
    touch.active_fingers = 2;
    touch.last_update_millis = now;
    touch.last_two_finger_millis = now;
}

#[test]
fn raw_trackpad_sequence_opens_at_first_tick_on_the_item() {
    let mut timer = RawTrackpadMenuTimerState::new();
    let mut touch = RawTrackpadTouchState::new();
    let mut opened = Vec::new();
    let cursor_inside = [false, false, true, true, false];
    for (tick, inside) in cursor_inside.iter().enumerate() {
        let now = 1000 + 25 * tick as u64;
        two_fingers_at(&mut touch, now);
        opened.push(raw_trackpad_menu_timer_tick(&mut timer, &mut touch, now, *inside));
    }
    touch.active_fingers = 0;
    touch.last_update_millis = 2000;
    opened.push(raw_trackpad_menu_timer_tick(&mut timer, &mut touch, 2000, true));
    assert_eq!(
        opened,
        vec![
            RawTrackpadTimerAction::Idle,
            RawTrackpadTimerAction::Idle,
            RawTrackpadTimerAction::OpenWhileSequenceActive,
            RawTrackpadTimerAction::Idle,
            RawTrackpadTimerAction::Idle,
            RawTrackpadTimerAction::Idle,
        ]
    );
}

#[test]
fn raw_trackpad_sequence_away_from_the_item_never_opens() {
    let mut timer = RawTrackpadMenuTimerState::new();
    let mut touch = RawTrackpadTouchState::new();
    for tick in 0..4u64 {
        let now = 1000 + 25 * tick;
        two_fingers_at(&mut touch, now);
        assert_eq!(
            raw_trackpad_menu_timer_tick(&mut timer, &mut touch, now, false),
            RawTrackpadTimerAction::Idle
        );
    }
    touch.active_fingers = 0;
    touch.last_update_millis = 2000;
    assert_eq!(
        raw_trackpad_menu_timer_tick(&mut timer, &mut touch, 2000, false),
        RawTrackpadTimerAction::Idle
    );
    assert!(!timer.menu_opened_for_sequence);
}
