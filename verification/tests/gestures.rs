use openusage_tray::gestures::{
    context_click_gesture_specs, primary_click_button_mask, secondary_click_button_mask,
    ContextClickGestureSpec,
};

#[test]
fn gestures_include_two_finger_clicks() {
    let specs = context_click_gesture_specs();

    assert!(specs.contains(&ContextClickGestureSpec {
        button_mask: primary_click_button_mask(),
        touch_count: 2,
        delay_primary: true,
        delay_secondary: false,
    }));
    assert!(specs.contains(&ContextClickGestureSpec {
        button_mask: secondary_click_button_mask(),
        touch_count: 2,
        delay_primary: false,
        delay_secondary: true,
    }));
}

#[test]
fn gestures_include_one_finger_secondary_click_first() {
    let specs = context_click_gesture_specs();
    assert_eq!(specs.len(), 3);
    assert_eq!(
        specs[0],
        ContextClickGestureSpec { button_mask: 2, touch_count: 1, delay_primary: false, delay_secondary: true }
    );
}
