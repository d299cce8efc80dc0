//! The click gesture recognizers installed on the status view.

use vstd::prelude::*;

verus! {

/// One click gesture recognizer: the buttons it accepts, the touches it
/// needs, and which button events it delays.
#[derive(Clone, Copy, Debug, PartialEq, Eq, Structural)]
pub struct ContextClickGestureSpec {
    pub button_mask: usize,
    pub touch_count: isize,
    pub delay_primary: bool,
    pub delay_secondary: bool,
}

/// The button-mask bit of the primary button.
pub fn primary_click_button_mask() -> (mask: usize)
    ensures
        mask == 1,
{
    1
}

/// The button-mask bit of the secondary button.
pub fn secondary_click_button_mask() -> (mask: usize)
    ensures
        mask == 2,
{
    2
}

/// The recognizers: a one-touch secondary click, a two-touch primary click,
/// and a two-touch secondary click; each delays the events of its own button.
pub fn context_click_gesture_specs() -> (specs: [ContextClickGestureSpec; 3])
    ensures
        specs@ == seq![
            ContextClickGestureSpec { button_mask: 2, touch_count: 1, delay_primary: false, delay_secondary: true },
            ContextClickGestureSpec { button_mask: 1, touch_count: 2, delay_primary: true, delay_secondary: false },
            ContextClickGestureSpec { button_mask: 2, touch_count: 2, delay_primary: false, delay_secondary: true },
        ],
{
    [
        ContextClickGestureSpec {
            button_mask: secondary_click_button_mask(),
            touch_count: 1,
            delay_primary: false,
            delay_secondary: true,
        },
        ContextClickGestureSpec {
            button_mask: primary_click_button_mask(),
            touch_count: 2,
            delay_primary: true,
            delay_secondary: false,
        },
        ContextClickGestureSpec {
            button_mask: secondary_click_button_mask(),
            touch_count: 2,
            delay_primary: false,
            delay_secondary: true,
        },
    ]
}

} // verus!
