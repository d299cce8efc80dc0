//! AppKit input events as plain values: event types, modifier flags, event
//! masks, the facts that the decisions read off an event, and touch counts.

use vstd::prelude::*;

verus! {

/// The AppKit event types that the context-menu decisions tell apart; every
/// other type is `Other`.
#[derive(Clone, Copy, Debug, PartialEq, Eq, Structural)]
pub enum EventType {
    LeftMouseDown,
    LeftMouseUp,
    RightMouseDown,
    RightMouseUp,
    MouseMoved,
    SystemDefined,
    Rotate,
    BeginGesture,
    EndGesture,
    ScrollWheel,
    OtherMouseDown,
    OtherMouseUp,
    Gesture,
    Magnify,
    Swipe,
    SmartMagnify,
    Pressure,
    DirectTouch,
    Other,
}

/// The control-key bit of AppKit's modifier flags.
pub const CONTROL_MODIFIER_BITS: u64 = 0x40000;

/// AppKit modifier flags, as their bits.
#[derive(Clone, Copy, Debug, PartialEq, Eq, Structural)]
pub struct ModifierFlags {
    pub bits: u64,
}

impl ModifierFlags {
    /// No modifier.
    pub fn empty() -> (flags: Self)
        ensures
            flags.bits == 0,
    {
        ModifierFlags { bits: 0 }
    }

    /// The control key alone.
    pub fn control() -> (flags: Self)
        ensures
            flags.bits == CONTROL_MODIFIER_BITS,
    {
        ModifierFlags { bits: CONTROL_MODIFIER_BITS }
    }

    /// Every flag of `other` is set in `self`.
    pub fn contains(&self, other: ModifierFlags) -> (r: bool)
        ensures
            r == (self.bits & other.bits == other.bits),
    {
        self.bits & other.bits == other.bits
    }
}

/// The control key is down in `flags`.
pub open spec fn has_control(flags: ModifierFlags) -> bool {
    flags.bits & CONTROL_MODIFIER_BITS == CONTROL_MODIFIER_BITS
}

/// Whether the control key is down in `flags`.
pub fn flags_have_control(flags: ModifierFlags) -> (r: bool)
    ensures
        r == has_control(flags),
{
    flags.contains(ModifierFlags::control())
}

/// What the decisions read off an AppKit event.
#[derive(Clone, Copy, Debug, PartialEq, Eq, Structural)]
pub struct NativeEvent {
    pub event_type: EventType,
    pub modifier_flags: ModifierFlags,
    pub button_number: isize,
    pub event_number: isize,
}

/// A set of AppKit event types, as the list of its types.
#[derive(Debug)]
pub struct EventMask {
    pub types: Vec<EventType>,
}

impl View for EventMask {
    type V = Seq<EventType>;

    open spec fn view(&self) -> Seq<EventType> {
        self.types@
    }
}

impl EventMask {
    /// Whether `event_type` is in the mask.
    pub fn contains(&self, event_type: EventType) -> (r: bool)
        ensures
            r == self@.contains(event_type),
    {
        let mut i: usize = 0;
        while i < self.types.len()
            invariant
                i <= self.types.len(),
                forall|j: int| 0 <= j < i ==> self.types@[j] != event_type,
            decreases self.types.len() - i,
        {
            if self.types[i] == event_type {
                assert(self.types@[i as int] == event_type);
                return true;
            }
            i = i + 1;
        }
        false
    }
}

/// The event types that can carry touches.
pub open spec fn can_report_touches(event_type: EventType) -> bool {
    event_type == EventType::Gesture || event_type == EventType::Magnify || event_type
        == EventType::Swipe || event_type == EventType::Rotate || event_type
        == EventType::BeginGesture || event_type == EventType::EndGesture || event_type
        == EventType::SmartMagnify || event_type == EventType::Pressure || event_type
        == EventType::DirectTouch || event_type == EventType::ScrollWheel
}

/// Whether an event of `event_type` can carry touches, so that asking it for
/// touches is worthwhile.
pub fn event_type_can_report_touches(event_type: EventType) -> (r: bool)
    ensures
        r == can_report_touches(event_type),
{
    event_type == EventType::Gesture || event_type == EventType::Magnify || event_type
        == EventType::Swipe || event_type == EventType::Rotate || event_type
        == EventType::BeginGesture || event_type == EventType::EndGesture || event_type
        == EventType::SmartMagnify || event_type == EventType::Pressure || event_type
        == EventType::DirectTouch || event_type == EventType::ScrollWheel
}

/// The touches that an event reports: touching and in any phase, in the
/// view and anywhere.
#[derive(Clone, Copy, Debug, PartialEq, Eq)]
pub struct TouchCounts {
    pub touching_in_view: usize,
    pub touching_in_event: usize,
    pub any_in_view: usize,
    pub any_in_event: usize,
}

/// The largest of the four counts.
pub open spec fn largest_touch_count(counts: TouchCounts) -> usize {
    let a = if counts.touching_in_view >= counts.touching_in_event {
        counts.touching_in_view
    } else {
        counts.touching_in_event
    };
    let b = if a >= counts.any_in_view {
        a
    } else {
        counts.any_in_view
    };
    if b >= counts.any_in_event {
        b
    } else {
        counts.any_in_event
    }
}

/// The number of touches on the trackpad: the largest of the counts.
pub fn max_touch_count(counts: TouchCounts) -> (count: usize)
    ensures
        count == largest_touch_count(counts),
        count >= counts.touching_in_view,
        count >= counts.touching_in_event,
        count >= counts.any_in_view,
        count >= counts.any_in_event,
{
    let a = if counts.touching_in_view >= counts.touching_in_event {
        counts.touching_in_view
    } else {
        counts.touching_in_event
    };
    let b = if a >= counts.any_in_view {
        a
    } else {
        counts.any_in_view
    };
    if b >= counts.any_in_event {
        b
    } else {
        counts.any_in_event
    }
}

/// The touch count of an event: none for event types that cannot carry
/// touches, else the largest of its counts.
pub fn touch_count_for_event(event_type: EventType, counts: TouchCounts) -> (count: usize)
    ensures
        count == if can_report_touches(event_type) {
            largest_touch_count(counts)
        } else {
            0
        },
{
    if !event_type_can_report_touches(event_type) {
        return 0;
    }
    max_touch_count(counts)
}

} // verus!
