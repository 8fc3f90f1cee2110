//! Default processor for swipe events.
//!
//! Displacements, like everywhere in this crate, are measured in ticks
//! (hundredths of the input device's unit), so the geometry below is exact
//! integer arithmetic: no angle is ever computed approximately.

use vstd::prelude::*;

use crate::events::errors::ProcessorError;
use crate::events::{ActionEvent, FingerCount, SwipeEvent};

verus! {

/// Largest accumulated displacement magnitude, in ticks, that the processor
/// tracks; further updates saturate.  The bound keeps every intermediate
/// product of the exact octant computation inside `i128`.
pub const DISPLACEMENT_LIMIT: i64 = 0x1000_0000_0000_0000;

/// Absolute value.
pub open spec fn abs(x: int) -> int {
    if x < 0 {
        -x
    } else {
        x
    }
}

/// Whether the vector `(u, v)` lies strictly within one sixteenth of a turn
/// of the positive `u` half-axis, so that its angle rounds to that compass
/// direction.
///
/// This is the exact integer form of `|angle| < pi / 8`, i.e.
/// `|v| < tan(pi / 8) * u`: multiplying both sides by `sqrt(2) + 1` gives
/// `sqrt(2) * |v| < u - |v|`, and squaring removes the radical.  Because
/// `tan(pi / 8)` is irrational, no integer vector other than the origin lies
/// exactly on the sector boundary, so the strict comparison loses nothing.
pub open spec fn near_axis(u: int, v: int) -> bool {
    u > abs(v) && 2 * v * v < (u - abs(v)) * (u - abs(v))
}

/// The sector, between 0 and 8, that the angle of the displacement `(dx, dy)`
/// rounds to, in the orientation used by the classifier: the angle is taken
/// of `(-dx, -dy)`, normalised into one full turn starting at the positive
/// axis, and rounded to the nearest eighth of a turn.  Angles in the last
/// half-sector of the turn round to 8.
///
/// Rotating a vector by an eighth of a turn maps `(u, v)` to a positive
/// multiple of `(u + v, v - u)`, and by a quarter turn to `(v, -u)`; each
/// sector test is [`near_axis`] applied to the rotated vector.  A zero
/// displacement has no direction of its own and lands in sector 4: the
/// angle convention treats the negated zero vector as a half turn.
pub open spec fn raw_octant_of(dx: int, dy: int) -> int {
    let u = -dx;
    let v = -dy;
    if dx == 0 && dy == 0 {
        4
    } else if near_axis(u, v) {
        if v < 0 {
            8
        } else {
            0
        }
    } else if near_axis(u + v, v - u) {
        1
    } else if near_axis(v, -u) {
        2
    } else if near_axis(v - u, -u - v) {
        3
    } else if near_axis(-u, -v) {
        4
    } else if near_axis(-u - v, u - v) {
        5
    } else if near_axis(-v, u) {
        6
    } else {
        7
    }
}

/// The octant of the displacement `(dx, dy)`: [`raw_octant_of`] with the full
/// turn wrapped back onto octant 0.  Octant 0 is the left direction,
/// increasing clockwise in screen coordinates (1 is left-up, 2 is up, ...).
pub open spec fn octant_of(dx: int, dy: int) -> int {
    if raw_octant_of(dx, dy) == 8 {
        0
    } else {
        raw_octant_of(dx, dy)
    }
}

/// Whether the displacement `(dx, dy)` is too small for a threshold of
/// `threshold` ticks: `sqrt(dx^2 + dy^2) < threshold`, squared to stay in
/// integers.
pub open spec fn displacement_below(dx: int, dy: int, threshold: int) -> bool {
    threshold > 0 && dx * dx + dy * dy < threshold * threshold
}

/// The action event for a given octant and finger count.
pub open spec fn event_for(octant: int, finger_count: FingerCount) -> ActionEvent {
    match finger_count {
        FingerCount::ThreeFinger => {
            if octant == 0 {
                ActionEvent::ThreeFingerSwipeLeft
            } else if octant == 1 {
                ActionEvent::ThreeFingerSwipeLeftUp
            } else if octant == 2 {
                ActionEvent::ThreeFingerSwipeUp
            } else if octant == 3 {
                ActionEvent::ThreeFingerSwipeRightUp
            } else if octant == 4 {
                ActionEvent::ThreeFingerSwipeRight
            } else if octant == 5 {
                ActionEvent::ThreeFingerSwipeRightDown
            } else if octant == 6 {
                ActionEvent::ThreeFingerSwipeDown
            } else {
                ActionEvent::ThreeFingerSwipeLeftDown
            }
        },
        FingerCount::FourFinger => {
            if octant == 0 {
                ActionEvent::FourFingerSwipeLeft
            } else if octant == 1 {
                ActionEvent::FourFingerSwipeLeftUp
            } else if octant == 2 {
                ActionEvent::FourFingerSwipeUp
            } else if octant == 3 {
                ActionEvent::FourFingerSwipeRightUp
            } else if octant == 4 {
                ActionEvent::FourFingerSwipeRight
            } else if octant == 5 {
                ActionEvent::FourFingerSwipeRightDown
            } else if octant == 6 {
                ActionEvent::FourFingerSwipeDown
            } else {
                ActionEvent::FourFingerSwipeLeftDown
            }
        },
    }
}

/// What the classifier returns for a swipe of displacement `(dx, dy)` ticks
/// with `finger_count` fingers, under the given threshold and axis-inversion
/// policy.
///
/// The finger count is checked first, then the magnitude; inversion applies
/// only to the direction, never to the magnitude.
pub open spec fn classify(
    dx: int,
    dy: int,
    finger_count: i32,
    threshold: i64,
    invert_x: bool,
    invert_y: bool,
) -> Result<ActionEvent, ProcessorError> {
    if finger_count != 3 && finger_count != 4 {
        Err(ProcessorError::UnsupportedFingerCount(finger_count))
    } else if displacement_below(dx, dy, threshold as int) {
        Err(ProcessorError::DisplacementBelowThreshold(threshold))
    } else {
        let eff_dx = if invert_x {
            -dx
        } else {
            dx
        };
        let eff_dy = if invert_y {
            -dy
        } else {
            dy
        };
        let count = if finger_count == 3 {
            FingerCount::ThreeFinger
        } else {
            FingerCount::FourFinger
        };
        Ok(event_for(octant_of(eff_dx, eff_dy), count))
    }
}

/// Saturating accumulation of a displacement delta, in ticks.
pub open spec fn clamp_add(a: int, b: int) -> int {
    if a + b > DISPLACEMENT_LIMIT as int {
        DISPLACEMENT_LIMIT as int
    } else if a + b < -(DISPLACEMENT_LIMIT as int) {
        -(DISPLACEMENT_LIMIT as int)
    } else {
        a + b
    }
}

/// What processing one swipe sub-event yields, given the displacement
/// accumulated so far.
pub open spec fn process_result(
    processor: DefaultProcessor,
    event: SwipeEvent,
    dx: int,
    dy: int,
) -> Result<Option<ActionEvent>, ProcessorError> {
    match event {
        SwipeEvent::Begin => Ok(None),
        SwipeEvent::Update(_, _) => Ok(None),
        SwipeEvent::End(finger_count) => {
            match classify(
                dx,
                dy,
                finger_count,
                processor.threshold,
                processor.invert_x,
                processor.invert_y,
            ) {
                Ok(action_event) => Ok(Some(action_event)),
                Err(e) => Err(e),
            }
        },
        SwipeEvent::Other => Err(ProcessorError::UnsupportedSwipeEvent),
    }
}

proof fn lemma_sq_le(x: int, b: int)
    by (nonlinear_arith)
    requires
        0 <= b,
        -b <= x <= b,
    ensures
        0 <= x * x <= b * b,
{
}

/// Exact test of [`near_axis`] on machine integers.
fn near_axis_exec(u: i128, v: i128) -> (r: bool)
    requires
        -0x4000_0000_0000_0000 <= u <= 0x4000_0000_0000_0000,
        -0x4000_0000_0000_0000 <= v <= 0x4000_0000_0000_0000,
    ensures
        r == near_axis(u as int, v as int),
{
    let a: i128 = if v < 0 {
        -v
    } else {
        v
    };
    proof {
        lemma_sq_le(v as int, 0x4000_0000_0000_0000);
        lemma_sq_le(u - a, 0x8000_0000_0000_0000);
    }
    let vv: i128 = v * v;
    let w: i128 = u - a;
    proof {
        let vi = v as int;
        assert(2 * vi * vi == vi * vi + vi * vi) by (nonlinear_arith);
    }
    u > a && vv + vv < w * w
}

/// Return the octant for the given displacement.
///
/// The octant the displacement is closest to in the `X`-`Y` coordinates,
/// with `0` being the left direction and increasing clock-wise.
fn get_event_octant(dx: i64, dy: i64) -> (r: i8)
    requires
        -DISPLACEMENT_LIMIT <= dx <= DISPLACEMENT_LIMIT,
        -DISPLACEMENT_LIMIT <= dy <= DISPLACEMENT_LIMIT,
    ensures
        r as int == octant_of(dx as int, dy as int),
        0 <= r < 8,
{
    let u: i128 = -(dx as i128);
    let v: i128 = -(dy as i128);

    // The nearest of the eight compass directions, with angles in the last
    // half-sector of the turn rounding to `8`; a zero displacement lands in
    // sector 4 by the angle convention for the negated zero vector.
    let mut octant: i8 = if dx == 0 && dy == 0 {
        4
    } else if near_axis_exec(u, v) {
        if v < 0 {
            8
        } else {
            0
        }
    } else if near_axis_exec(u + v, v - u) {
        1
    } else if near_axis_exec(v, -u) {
        2
    } else if near_axis_exec(v - u, -u - v) {
        3
    } else if near_axis_exec(-u, -v) {
        4
    } else if near_axis_exec(-u - v, u - v) {
        5
    } else if near_axis_exec(-v, u) {
        6
    } else {
        7
    };
    if octant == 8 {
        // Wrap to the initial direction.
        octant = 0;
    }

    octant
}

/// Default processor for swipe events.
///
/// The device handling that feeds it lives outside the library; the
/// processor itself only turns already-modelled [`SwipeEvent`]s into
/// [`ActionEvent`]s.
pub struct DefaultProcessor {
    /// Minimum threshold for displacement changes, in ticks.
    pub threshold: i64,
    /// Whether positive displacement on the `X` axis should be interpreted
    /// as "left".
    pub invert_x: bool,
    /// Whether positive displacement on the `Y` axis should be interpreted
    /// as "up".
    pub invert_y: bool,
}

impl DefaultProcessor {
    /// Return a new [`DefaultProcessor`].
    pub fn new(threshold: i64, invert_x: bool, invert_y: bool) -> (r: Self)
        ensures
            r.threshold == threshold,
            r.invert_x == invert_x,
            r.invert_y == invert_y,
    {
        DefaultProcessor { threshold, invert_x, invert_y }
    }

    /// Process a single swipe sub-event, updating the accumulated
    /// displacement and classifying it when the swipe ends.
    pub fn process_event(&self, event: SwipeEvent, dx: &mut i64, dy: &mut i64) -> (r: Result<
        Option<ActionEvent>,
        ProcessorError,
    >)
        requires
            -DISPLACEMENT_LIMIT <= *old(dx) <= DISPLACEMENT_LIMIT,
            -DISPLACEMENT_LIMIT <= *old(dy) <= DISPLACEMENT_LIMIT,
        ensures
            -DISPLACEMENT_LIMIT <= *final(dx) <= DISPLACEMENT_LIMIT,
            -DISPLACEMENT_LIMIT <= *final(dy) <= DISPLACEMENT_LIMIT,
            r == process_result(*self, event, *old(dx) as int, *old(dy) as int),
            event matches SwipeEvent::Begin ==> *final(dx) == 0 && *final(dy) == 0,
            event matches SwipeEvent::Update(ddx, ddy) ==> *final(dx) == clamp_add(
                *old(dx) as int,
                ddx as int,
            ) && *final(dy) == clamp_add(*old(dy) as int, ddy as int),
            !(event matches SwipeEvent::Begin) && !(event matches SwipeEvent::Update(..))
                ==> *final(dx) == *old(dx) && *final(dy) == *old(dy),
    {
        match event {
            SwipeEvent::Begin => {
                *dx = 0;
                *dy = 0;
                Ok(None)
            },
            SwipeEvent::Update(ddx, ddy) => {
                *dx = accumulate(*dx, ddx);
                *dy = accumulate(*dy, ddy);
                Ok(None)
            },
            SwipeEvent::End(finger_count) => {
                match self._end_event_to_action_event(*dx, *dy, finger_count) {
                    Ok(action_event) => Ok(Some(action_event)),
                    Err(e) => Err(e),
                }
            },
            SwipeEvent::Other => Err(ProcessorError::UnsupportedSwipeEvent),
        }
    }

    /// Finalize a swipe gesture end event into an [`ActionEvent`].
    ///
    /// The result is exactly [`classify`] of the arguments under this
    /// processor's threshold and inversion policy; in particular any finger
    /// count other than three or four is rejected, and any displacement
    /// whose magnitude is below the threshold is rejected.
    pub fn _end_event_to_action_event(&self, dx: i64, dy: i64, finger_count: i32) -> (r: Result<
        ActionEvent,
        ProcessorError,
    >)
        requires
            -DISPLACEMENT_LIMIT <= dx <= DISPLACEMENT_LIMIT,
            -DISPLACEMENT_LIMIT <= dy <= DISPLACEMENT_LIMIT,
        ensures
            r == classify(
                dx as int,
                dy as int,
                finger_count,
                self.threshold,
                self.invert_x,
                self.invert_y,
            ),
            finger_count != 3 && finger_count != 4 ==> r == Err::<ActionEvent, ProcessorError>(
                ProcessorError::UnsupportedFingerCount(finger_count),
            ),
            (finger_count == 3 || finger_count == 4) && displacement_below(
                dx as int,
                dy as int,
                self.threshold as int,
            ) ==> r == Err::<ActionEvent, ProcessorError>(
                ProcessorError::DisplacementBelowThreshold(self.threshold),
            ),
    {
        // Determine finger count.
        let finger_count_as_enum = match FingerCount::try_from(finger_count) {
            Ok(count) => count,
            Err(e) => {
                return Err(e);
            },
        };

        // Discard displacements below threshold.
        let dxw: i128 = dx as i128;
        let dyw: i128 = dy as i128;
        let tw: i128 = self.threshold as i128;
        proof {
            lemma_sq_le(dxw as int, DISPLACEMENT_LIMIT as int);
            lemma_sq_le(dyw as int, DISPLACEMENT_LIMIT as int);
            lemma_sq_le(tw as int, 0x8000_0000_0000_0000);
        }
        if self.threshold > 0 && dxw * dxw + dyw * dyw < tw * tw {
            return Err(ProcessorError::DisplacementBelowThreshold(self.threshold));
        }

        // Determine the `ActionEvent` for the event.
        let eff_dx: i64 = if self.invert_x {
            -dx
        } else {
            dx
        };
        let eff_dy: i64 = if self.invert_y {
            -dy
        } else {
            dy
        };
        let octant = get_event_octant(eff_dx, eff_dy);
        Ok(
            match (octant, finger_count_as_enum) {
                (0, FingerCount::ThreeFinger) => ActionEvent::ThreeFingerSwipeLeft,
                (1, FingerCount::ThreeFinger) => ActionEvent::ThreeFingerSwipeLeftUp,
                (2, FingerCount::ThreeFinger) => ActionEvent::ThreeFingerSwipeUp,
                (3, FingerCount::ThreeFinger) => ActionEvent::ThreeFingerSwipeRightUp,
                (4, FingerCount::ThreeFinger) => ActionEvent::ThreeFingerSwipeRight,
                (5, FingerCount::ThreeFinger) => ActionEvent::ThreeFingerSwipeRightDown,
                (6, FingerCount::ThreeFinger) => ActionEvent::ThreeFingerSwipeDown,
                (7, FingerCount::ThreeFinger) => ActionEvent::ThreeFingerSwipeLeftDown,
                (0, FingerCount::FourFinger) => ActionEvent::FourFingerSwipeLeft,
                (1, FingerCount::FourFinger) => ActionEvent::FourFingerSwipeLeftUp,
                (2, FingerCount::FourFinger) => ActionEvent::FourFingerSwipeUp,
                (3, FingerCount::FourFinger) => ActionEvent::FourFingerSwipeRightUp,
                (4, FingerCount::FourFinger) => ActionEvent::FourFingerSwipeRight,
                (5, FingerCount::FourFinger) => ActionEvent::FourFingerSwipeRightDown,
                (6, FingerCount::FourFinger) => ActionEvent::FourFingerSwipeDown,
                (7, FingerCount::FourFinger) => ActionEvent::FourFingerSwipeLeftDown,
                (_, _) => {
                    proof {
                        assert(false);
                    }
                    ActionEvent::ThreeFingerSwipeLeft
                },
            },
        )
    }
}

impl Default for DefaultProcessor {
    /// The default processor: a threshold of five device units, no inversion.
    fn default() -> (r: Self)
        ensures
            r.threshold == 500,
            !r.invert_x,
            !r.invert_y,
    {
        DefaultProcessor::new(500, false, false)
    }
}

/// Add a displacement delta, saturating at [`DISPLACEMENT_LIMIT`].
fn accumulate(a: i64, b: i64) -> (r: i64)
    ensures
        r as int == clamp_add(a as int, b as int),
{
    let s: i128 = (a as i128) + (b as i128);
    if s > DISPLACEMENT_LIMIT as i128 {
        DISPLACEMENT_LIMIT
    } else if s < -(DISPLACEMENT_LIMIT as i128) {
        -DISPLACEMENT_LIMIT
    } else {
        s as i64
    }
}

/// The classifier is pure: identical inputs always yield identical output;
/// what [`DefaultProcessor::_end_event_to_action_event`] returns is a
/// function of its arguments and the processor's policy alone.
pub proof fn lemma_classifier_pure(
    dx1: int,
    dy1: int,
    finger_count1: i32,
    threshold1: i64,
    invert_x1: bool,
    invert_y1: bool,
    dx2: int,
    dy2: int,
    finger_count2: i32,
    threshold2: i64,
    invert_x2: bool,
    invert_y2: bool,
)
    requires
        dx1 == dx2,
        dy1 == dy2,
        finger_count1 == finger_count2,
        threshold1 == threshold2,
        invert_x1 == invert_x2,
        invert_y1 == invert_y2,
    ensures
        classify(dx1, dy1, finger_count1, threshold1, invert_x1, invert_y1) == classify(
            dx2,
            dy2,
            finger_count2,
            threshold2,
            invert_x2,
            invert_y2,
        ),
{
}

/// Any finger count other than three or four is rejected as
/// `UnsupportedFingerCount`, whatever the displacement, threshold and
/// inversion policy.
pub proof fn lemma_unsupported_finger_count(
    dx: int,
    dy: int,
    finger_count: i32,
    threshold: i64,
    invert_x: bool,
    invert_y: bool,
)
    requires
        finger_count != 3 && finger_count != 4,
    ensures
        classify(dx, dy, finger_count, threshold, invert_x, invert_y) == Err::<
            ActionEvent,
            ProcessorError,
        >(ProcessorError::UnsupportedFingerCount(finger_count)),
{
}

/// A displacement whose magnitude is below the threshold is rejected as
/// `DisplacementBelowThreshold` under either supported finger count and
/// either inversion policy.  (An unsupported finger count is rejected as
/// such even below the threshold, so it is excluded here.)
pub proof fn lemma_below_threshold_rejected(
    dx: int,
    dy: int,
    finger_count: i32,
    threshold: i64,
    invert_x: bool,
    invert_y: bool,
)
    requires
        finger_count == 3 || finger_count == 4,
        displacement_below(dx, dy, threshold as int),
    ensures
        classify(dx, dy, finger_count, threshold, invert_x, invert_y) == Err::<
            ActionEvent,
            ProcessorError,
        >(ProcessorError::DisplacementBelowThreshold(threshold)),
{
}

/// Octant boundary wraparound: a displacement whose angle rounds to the
/// full-turn sector 8 maps to octant 0 (the left direction), and every
/// displacement maps to an octant in range — never to an out-of-range
/// bucket.
pub proof fn lemma_octant_wraparound(dx: int, dy: int)
    ensures
        raw_octant_of(dx, dy) == 8 ==> octant_of(dx, dy) == 0,
        0 <= octant_of(dx, dy) < 8,
{
}

/// Inverting the `X` axis negates the effective `dx` used for
/// classification: classifying with `invert_x` set gives exactly the result
/// of classifying the negated `dx` without it.
pub proof fn lemma_invert_x_mirrors(
    dx: int,
    dy: int,
    finger_count: i32,
    threshold: i64,
    invert_y: bool,
)
    ensures
        classify(dx, dy, finger_count, threshold, true, invert_y) == classify(
            -dx,
            dy,
            finger_count,
            threshold,
            false,
            invert_y,
        ),
{
    assert(dx * dx == (-dx) * (-dx)) by (nonlinear_arith);
}

} // verus!
