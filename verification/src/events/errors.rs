//! Errors related to [`events`].
//!
//! [`events`]: crate::events

use vstd::prelude::*;

verus! {

/// Errors raised while processing swipe events.
#[derive(Copy, Clone, Eq, PartialEq, Structural, Debug)]
pub enum ProcessorError {
    /// Unsupported finger count.
    UnsupportedFingerCount(i32),
    /// Unsupported swipe event.
    UnsupportedSwipeEvent,
    /// Event displacement is below threshold (in ticks).
    DisplacementBelowThreshold(i64),
}

impl ProcessorError {
    /// Return a human-readable description of this error.
    pub fn describe(&self) -> (r: &'static str)
        ensures
            self matches ProcessorError::UnsupportedFingerCount(_) ==> r@
                == "unsupported finger count"@,
            *self is UnsupportedSwipeEvent ==> r@ == "unsupported swipe event"@,
            self matches ProcessorError::DisplacementBelowThreshold(_) ==> r@
                == "event displacement is below threshold"@,
    {
        match self {
            ProcessorError::UnsupportedFingerCount(_) => "unsupported finger count",
            ProcessorError::UnsupportedSwipeEvent => "unsupported swipe event",
            ProcessorError::DisplacementBelowThreshold(_) => {
                "event displacement is below threshold"
            },
        }
    }
}

} // verus!
