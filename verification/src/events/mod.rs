//! Components for capturing and handling events.

pub mod defaultprocessor;
pub mod errors;

use vstd::prelude::*;

verus! {

/// High-level application events that can trigger an action.
///
/// Each value combines a finger count (three or four) with one of eight
/// compass directions, in screen coordinates: up is negative `y`.
#[derive(Copy, Clone, Eq, PartialEq, Structural, Debug)]
pub enum ActionEvent {
    /// Three-finger swipe to left.
    ThreeFingerSwipeLeft,
    /// Three-finger swipe to left-up.
    ThreeFingerSwipeLeftUp,
    /// Three-finger swipe to up.
    ThreeFingerSwipeUp,
    /// Three-finger swipe to right-up.
    ThreeFingerSwipeRightUp,
    /// Three-finger swipe to right.
    ThreeFingerSwipeRight,
    /// Three-finger swipe to right-down.
    ThreeFingerSwipeRightDown,
    /// Three-finger swipe to down.
    ThreeFingerSwipeDown,
    /// Three-finger swipe to left-down.
    ThreeFingerSwipeLeftDown,
    /// Four-finger swipe to left.
    FourFingerSwipeLeft,
    /// Four-finger swipe to left-up.
    FourFingerSwipeLeftUp,
    /// Four-finger swipe to up.
    FourFingerSwipeUp,
    /// Four-finger swipe to right-up.
    FourFingerSwipeRightUp,
    /// Four-finger swipe to right.
    FourFingerSwipeRight,
    /// Four-finger swipe to right-down.
    FourFingerSwipeRightDown,
    /// Four-finger swipe to down.
    FourFingerSwipeDown,
    /// Four-finger swipe to left-down.
    FourFingerSwipeLeftDown,
}

impl ActionEvent {
    /// Position of this event in the fixed order of the sixteen events.
    pub open spec fn position(self) -> int {
        match self {
            ActionEvent::ThreeFingerSwipeLeft => 0,
            ActionEvent::ThreeFingerSwipeLeftUp => 1,
            ActionEvent::ThreeFingerSwipeUp => 2,
            ActionEvent::ThreeFingerSwipeRightUp => 3,
            ActionEvent::ThreeFingerSwipeRight => 4,
            ActionEvent::ThreeFingerSwipeRightDown => 5,
            ActionEvent::ThreeFingerSwipeDown => 6,
            ActionEvent::ThreeFingerSwipeLeftDown => 7,
            ActionEvent::FourFingerSwipeLeft => 8,
            ActionEvent::FourFingerSwipeLeftUp => 9,
            ActionEvent::FourFingerSwipeUp => 10,
            ActionEvent::FourFingerSwipeRightUp => 11,
            ActionEvent::FourFingerSwipeRight => 12,
            ActionEvent::FourFingerSwipeRightDown => 13,
            ActionEvent::FourFingerSwipeDown => 14,
            ActionEvent::FourFingerSwipeLeftDown => 15,
        }
    }

    /// The kebab-case name of this event, as used for configuration keys.
    pub open spec fn spec_name(self) -> Seq<char> {
        match self {
            ActionEvent::ThreeFingerSwipeLeft => "three-finger-swipe-left"@,
            ActionEvent::ThreeFingerSwipeLeftUp => "three-finger-swipe-left-up"@,
            ActionEvent::ThreeFingerSwipeUp => "three-finger-swipe-up"@,
            ActionEvent::ThreeFingerSwipeRightUp => "three-finger-swipe-right-up"@,
            ActionEvent::ThreeFingerSwipeRight => "three-finger-swipe-right"@,
            ActionEvent::ThreeFingerSwipeRightDown => "three-finger-swipe-right-down"@,
            ActionEvent::ThreeFingerSwipeDown => "three-finger-swipe-down"@,
            ActionEvent::ThreeFingerSwipeLeftDown => "three-finger-swipe-left-down"@,
            ActionEvent::FourFingerSwipeLeft => "four-finger-swipe-left"@,
            ActionEvent::FourFingerSwipeLeftUp => "four-finger-swipe-left-up"@,
            ActionEvent::FourFingerSwipeUp => "four-finger-swipe-up"@,
            ActionEvent::FourFingerSwipeRightUp => "four-finger-swipe-right-up"@,
            ActionEvent::FourFingerSwipeRight => "four-finger-swipe-right"@,
            ActionEvent::FourFingerSwipeRightDown => "four-finger-swipe-right-down"@,
            ActionEvent::FourFingerSwipeDown => "four-finger-swipe-down"@,
            ActionEvent::FourFingerSwipeLeftDown => "four-finger-swipe-left-down"@,
        }
    }

    /// Return the position of this event in the fixed order of the sixteen
    /// events.
    pub fn index(&self) -> (r: usize)
        ensures
            r as int == self.position(),
    {
        match self {
            ActionEvent::ThreeFingerSwipeLeft => 0,
            ActionEvent::ThreeFingerSwipeLeftUp => 1,
            ActionEvent::ThreeFingerSwipeUp => 2,
            ActionEvent::ThreeFingerSwipeRightUp => 3,
            ActionEvent::ThreeFingerSwipeRight => 4,
            ActionEvent::ThreeFingerSwipeRightDown => 5,
            ActionEvent::ThreeFingerSwipeDown => 6,
            ActionEvent::ThreeFingerSwipeLeftDown => 7,
            ActionEvent::FourFingerSwipeLeft => 8,
            ActionEvent::FourFingerSwipeLeftUp => 9,
            ActionEvent::FourFingerSwipeUp => 10,
            ActionEvent::FourFingerSwipeRightUp => 11,
            ActionEvent::FourFingerSwipeRight => 12,
            ActionEvent::FourFingerSwipeRightDown => 13,
            ActionEvent::FourFingerSwipeDown => 14,
            ActionEvent::FourFingerSwipeLeftDown => 15,
        }
    }

    /// Return the kebab-case name of this event, as used for configuration
    /// keys and logging.
    pub fn name(&self) -> (r: &'static str)
        ensures
            r@ == self.spec_name(),
    {
        match self {
            ActionEvent::ThreeFingerSwipeLeft => "three-finger-swipe-left",
            ActionEvent::ThreeFingerSwipeLeftUp => "three-finger-swipe-left-up",
            ActionEvent::ThreeFingerSwipeUp => "three-finger-swipe-up",
            ActionEvent::ThreeFingerSwipeRightUp => "three-finger-swipe-right-up",
            ActionEvent::ThreeFingerSwipeRight => "three-finger-swipe-right",
            ActionEvent::ThreeFingerSwipeRightDown => "three-finger-swipe-right-down",
            ActionEvent::ThreeFingerSwipeDown => "three-finger-swipe-down",
            ActionEvent::ThreeFingerSwipeLeftDown => "three-finger-swipe-left-down",
            ActionEvent::FourFingerSwipeLeft => "four-finger-swipe-left",
            ActionEvent::FourFingerSwipeLeftUp => "four-finger-swipe-left-up",
            ActionEvent::FourFingerSwipeUp => "four-finger-swipe-up",
            ActionEvent::FourFingerSwipeRightUp => "four-finger-swipe-right-up",
            ActionEvent::FourFingerSwipeRight => "four-finger-swipe-right",
            ActionEvent::FourFingerSwipeRightDown => "four-finger-swipe-right-down",
            ActionEvent::FourFingerSwipeDown => "four-finger-swipe-down",
            ActionEvent::FourFingerSwipeLeftDown => "four-finger-swipe-left-down",
        }
    }

    /// Return all sixteen events, in their fixed order.
    pub fn all() -> (r: Vec<ActionEvent>)
        ensures
            r@.len() == 16,
            forall|i: int| 0 <= i < 16 ==> (#[trigger] r@[i]).position() == i,
    {
        let mut v: Vec<ActionEvent> = Vec::new();
        v.push(ActionEvent::ThreeFingerSwipeLeft);
        v.push(ActionEvent::ThreeFingerSwipeLeftUp);
        v.push(ActionEvent::ThreeFingerSwipeUp);
        v.push(ActionEvent::ThreeFingerSwipeRightUp);
        v.push(ActionEvent::ThreeFingerSwipeRight);
        v.push(ActionEvent::ThreeFingerSwipeRightDown);
        v.push(ActionEvent::ThreeFingerSwipeDown);
        v.push(ActionEvent::ThreeFingerSwipeLeftDown);
        v.push(ActionEvent::FourFingerSwipeLeft);
        v.push(ActionEvent::FourFingerSwipeLeftUp);
        v.push(ActionEvent::FourFingerSwipeUp);
        v.push(ActionEvent::FourFingerSwipeRightUp);
        v.push(ActionEvent::FourFingerSwipeRight);
        v.push(ActionEvent::FourFingerSwipeRightDown);
        v.push(ActionEvent::FourFingerSwipeDown);
        v.push(ActionEvent::FourFingerSwipeLeftDown);
        v
    }
}

/// No two action events share a position: the sixteen events are in
/// one-to-one correspondence with the registry's slots.
pub proof fn lemma_position_injective(a: ActionEvent, b: ActionEvent)
    requires
        a.position() == b.position(),
    ensures
        a == b,
{
}

/// Possible choices for finger count.
#[derive(Copy, Clone, Eq, PartialEq, Structural, Debug)]
pub enum FingerCount {
    /// Three fingers.
    ThreeFinger,
    /// Four fingers.
    FourFinger,
}

impl FingerCount {
    /// Parse a raw finger count, accepting exactly three and four.
    pub fn try_from(value: i32) -> (r: Result<FingerCount, errors::ProcessorError>)
        ensures
            value == 3 ==> r == Ok::<_, errors::ProcessorError>(FingerCount::ThreeFinger),
            value == 4 ==> r == Ok::<_, errors::ProcessorError>(FingerCount::FourFinger),
            value != 3 && value != 4 ==> r == Err::<FingerCount, _>(
                errors::ProcessorError::UnsupportedFingerCount(value),
            ),
    {
        match value {
            3 => Ok(FingerCount::ThreeFinger),
            4 => Ok(FingerCount::FourFinger),
            _ => Err(errors::ProcessorError::UnsupportedFingerCount(value)),
        }
    }
}

/// Axis of a swipe action.
#[derive(Copy, Clone, Eq, PartialEq, Structural, Debug)]
pub enum Axis {
    /// Horizontal (`X`) axis.
    X,
    /// Vertical (`Y`) axis.
    Y,
}

/// A single swipe sub-event, as reported by the input device.
///
/// Displacements are in ticks (hundredths of the device unit).
#[derive(Copy, Clone, Eq, PartialEq, Structural, Debug)]
pub enum SwipeEvent {
    /// A new swipe started.
    Begin,
    /// The fingers moved by the given displacement.
    Update(i64, i64),
    /// The swipe ended with the given finger count.
    End(i32),
    /// Any other swipe sub-event (such as a cancelled swipe).
    Other,
}

} // verus!
