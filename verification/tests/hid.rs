use openusage_tray::clock::{hid_elapsed_millis, millis_to_u64_saturating};
use openusage_tray::hid::{
    claim_hid_runtime, hid_secondary_click_timer_tick, hid_secondary_click_value_callback,
    hid_two_contact_signal_is_active, is_contact_count_hid_usage, is_secondary_button_hid_usage,
    iohid_status_is_success, normalize_hid_contact_count, pointer_device_matching_usages,
    should_open_menu_from_hid_button_state, should_open_menu_from_hid_primary_two_contact_state,
    update_hid_button_state, update_hid_contact_count, HidButton, HidSecondaryClickState,
    HidSecondaryClickTimerState, HidTimerAction, HidValueUpdate,
};

#[test]
fn hid_usage_helpers_match_mouse_buttons_and_contact_count() {
    assert!(is_secondary_button_hid_usage(0x09, 0x02));
    assert!(!is_secondary_button_hid_usage(0x09, 0x01));
    assert!(!is_secondary_button_hid_usage(0x01, 0x02));
    assert!(is_contact_count_hid_usage(0x0d, 0x54));
    assert!(!is_contact_count_hid_usage(0x0d, 0x42));
}

#[test]
fn hid_button_down_edge_opens_only_inside_status_view() {
    assert!(should_open_menu_from_hid_button_state(false, true, true));
    assert!(!should_open_menu_from_hid_button_state(true, true, true));
    assert!(!should_open_menu_from_hid_button_state(false, false, true));
    assert!(!should_open_menu_from_hid_button_state(false, true, false));
}

#[test]
fn hid_primary_button_with_two_contacts_opens_only_on_inside_down_edge() {
    assert!(should_open_menu_from_hid_primary_two_contact_state(
        false, true, true, true
    ));
    assert!(!should_open_menu_from_hid_primary_two_contact_state(
        true, true, true, true
    ));
    assert!(!should_open_menu_from_hid_primary_two_contact_state(
        false, false, true, true
    ));
    assert!(!should_open_menu_from_hid_primary_two_contact_state(
        false, true, false, true
    ));
    assert!(!should_open_menu_from_hid_primary_two_contact_state(
        false, true, true, false
    ));
}

#[test]
fn recent_hid_two_contact_signal_covers_button_event_ordering() {
    let mut state = HidSecondaryClickState::new();
    assert!(!hid_two_contact_signal_is_active(&state, 100, 240));

    state.contact_count = 2;
    assert!(hid_two_contact_signal_is_active(&state, 100, 240));

    state.contact_count = 0;
    state.last_two_contact_millis = 100;
    assert!(hid_two_contact_signal_is_active(&state, 339, 240));
    assert!(!hid_two_contact_signal_is_active(&state, 340, 240));
}

#[test]
fn hid_contact_count_normalizes_negative_values() {
    assert_eq!(normalize_hid_contact_count(2), 2);
    assert_eq!(normalize_hid_contact_count(-1), 0);
}

#[test]
fn iohid_zero_status_is_success() {
    assert!(iohid_status_is_success(0));
    assert!(!iohid_status_is_success(1));
}

#[test]
fn hid_button_updates_log_first_frame_and_changes_only() {
    let mut state = HidSecondaryClickState::new();
    assert!(update_hid_button_state(&mut state, HidButton::Secondary, 0));
    assert!(!state.secondary_button_is_down);
    assert!(update_hid_button_state(&mut state, HidButton::Secondary, 1));
    assert!(state.secondary_button_is_down);
    assert!(!state.primary_button_is_down);
    assert!(!update_hid_button_state(&mut state, HidButton::Secondary, 5));
    assert_eq!(state.value_frames, 3);
}

#[test]
fn hid_contact_count_stamps_two_contact_reports() {
    let mut state = HidSecondaryClickState::new();
    assert!(update_hid_contact_count(&mut state, 1, 50));
    assert!(!update_hid_contact_count(&mut state, 1, 60));
    assert_eq!(state.last_two_contact_millis, 0);
    assert!(update_hid_contact_count(&mut state, 3, 70));
    assert_eq!(state.contact_count, 3);
    assert_eq!(state.last_two_contact_millis, 70);
    assert!(update_hid_contact_count(&mut state, -4, 90));
    assert_eq!(state.contact_count, 0);
    assert_eq!(state.last_two_contact_millis, 70);
}

#[test]
fn hid_value_callback_dispatches_by_usage() {
    let mut state = HidSecondaryClickState::new();
    assert_eq!(
        hid_secondary_click_value_callback(&mut state, 1, 0x09, 0x02, 1, 10),
        HidValueUpdate::Ignored
    );
    assert!(!state.secondary_button_is_down);
    assert_eq!(
        hid_secondary_click_value_callback(&mut state, 0, 0x09, 0x02, 1, 10),
        HidValueUpdate::Button { button: HidButton::Secondary, log_change: true }
    );
    assert!(state.secondary_button_is_down);
    assert_eq!(
        hid_secondary_click_value_callback(&mut state, 0, 0x09, 0x01, 1, 10),
        HidValueUpdate::Button { button: HidButton::Primary, log_change: true }
    );
    assert_eq!(
        hid_secondary_click_value_callback(&mut state, 0, 0x0d, 0x54, 2, 20),
        HidValueUpdate::ContactCount { changed: true }
    );
    assert_eq!(state.last_two_contact_millis, 20);
    assert_eq!(
        hid_secondary_click_value_callback(&mut state, 0, 0x0d, 0x42, 2, 30),
        HidValueUpdate::Ignored
    );
}

#[test]
fn hid_timer_opens_once_per_secondary_press() {
    let mut click = HidSecondaryClickState::new();
    let mut timer = HidSecondaryClickTimerState::new();
    assert_eq!(hid_secondary_click_timer_tick(&mut timer, &click, 0, true), HidTimerAction::Idle);
    click.secondary_button_is_down = true;
    assert_eq!(
        hid_secondary_click_timer_tick(&mut timer, &click, 10, true),
        HidTimerAction::OpenFromSecondaryButton
    );
    assert_eq!(hid_secondary_click_timer_tick(&mut timer, &click, 20, true), HidTimerAction::Idle);
}

#[test]
fn hid_timer_opens_for_primary_with_recent_two_contacts() {
    let mut click = HidSecondaryClickState::new();
    let mut timer = HidSecondaryClickTimerState::new();
    click.last_two_contact_millis = 100;
    click.primary_button_is_down = true;
    assert_eq!(
        hid_secondary_click_timer_tick(&mut timer, &click, 200, false),
        HidTimerAction::Idle
    );
    let mut timer = HidSecondaryClickTimerState::new();
    assert_eq!(
        hid_secondary_click_timer_tick(&mut timer, &click, 200, true),
        HidTimerAction::OpenFromPrimaryTwoContact
    );
    let mut timer = HidSecondaryClickTimerState::new();
    assert_eq!(
        hid_secondary_click_timer_tick(&mut timer, &click, 340, true),
        HidTimerAction::Idle
    );
}

#[test]
fn hid_matches_mice_pointers_and_touchpads() {
    assert_eq!(pointer_device_matching_usages(), [(0x01, 0x02), (0x01, 0x01), (0x0d, 0x05)]);
}

#[test]
fn elapsed_millis_saturate_and_start_near_zero() {
    assert_eq!(millis_to_u64_saturating(5), 5);
    assert_eq!(millis_to_u64_saturating(u64::MAX as u128 + 1), u64::MAX);
    let started_at = std::time::Instant::now();
    assert!(hid_elapsed_millis(&started_at) < 60_000);
}

#[test]
fn hid_runtime_is_claimed_once() {
    let mut state = HidSecondaryClickState::new();
    assert!(!claim_hid_runtime(&mut state));
    assert!(state.runtime_started);
    assert!(claim_hid_runtime(&mut state));
    assert!(state.runtime_started);
}
