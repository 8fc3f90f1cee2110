//! Tests for swipe classification: directions, thresholds and finger counts.
//!
//! Displacements and thresholds are in ticks (hundredths of the device
//! unit), so `500` stands for a displacement of `5.0`.

use lillinput::events::defaultprocessor::DefaultProcessor;
use lillinput::events::errors::ProcessorError;
use lillinput::events::ActionEvent;

#[test]
/// Test the handling of an event `finger_count` argument.
fn test_parse_finger_count() {
    // Initialize the processor.
    let processor = DefaultProcessor::default();

    // Trigger right swipe with supported (3) fingers count.
    let action_event = processor._end_event_to_action_event(500, 0, 3);
    assert!(action_event.is_ok());
    assert!(action_event.unwrap() == ActionEvent::ThreeFingerSwipeRight);

    // Trigger right swipe with supported (4) fingers count.
    let action_event = processor._end_event_to_action_event(500, 0, 4);
    assert!(action_event.is_ok());
    assert!(action_event.unwrap() == ActionEvent::FourFingerSwipeRight);

    // Trigger right swipe with unsupported (5) fingers count.
    let action_event = processor._end_event_to_action_event(500, 0, 5);
    assert!(action_event.is_err());
    assert!(matches!(
        action_event,
        Err(ProcessorError::UnsupportedFingerCount(5))
    ));
}

#[test]
/// Test the handling of an event `threshold` argument.
fn test_parse_threshold() {
    // Initialize the processor.
    let processor = DefaultProcessor::default();

    // Trigger swipe below threshold.
    let action_event = processor._end_event_to_action_event(499, 0, 3);
    assert_eq!(
        action_event,
        Err(ProcessorError::DisplacementBelowThreshold(500))
    );

    // Trigger swipe above threshold.
    let action_event = processor._end_event_to_action_event(500, 0, 3);
    assert!(action_event.is_ok());
    assert!(action_event.unwrap() == ActionEvent::ThreeFingerSwipeRight);
}

#[test]
/// Test the handling of different directions.
fn test_multiple_directions() {
    // Initialize the processor.
    let processor = DefaultProcessor::default();

    let s: i64 = 1250;
    // Trigger swipes for directions at the edges of the threshold.
    let action_event = processor._end_event_to_action_event(-500, 0, 3);
    assert!(action_event.unwrap() == ActionEvent::ThreeFingerSwipeLeft);
    let action_event = processor._end_event_to_action_event(-s, -s, 3);
    assert!(action_event.unwrap() == ActionEvent::ThreeFingerSwipeLeftUp);
    let action_event = processor._end_event_to_action_event(0, -500, 3);
    assert!(action_event.unwrap() == ActionEvent::ThreeFingerSwipeUp);
    let action_event = processor._end_event_to_action_event(s, -s, 3);
    assert!(action_event.unwrap() == ActionEvent::ThreeFingerSwipeRightUp);
    let action_event = processor._end_event_to_action_event(500, 0, 3);
    assert!(action_event.unwrap() == ActionEvent::ThreeFingerSwipeRight);
    let action_event = processor._end_event_to_action_event(s, s, 3);
    assert!(action_event.unwrap() == ActionEvent::ThreeFingerSwipeRightDown);
    let action_event = processor._end_event_to_action_event(0, 500, 3);
    assert!(action_event.unwrap() == ActionEvent::ThreeFingerSwipeDown);
    let action_event = processor._end_event_to_action_event(-s, s, 3);
    assert!(action_event.unwrap() == ActionEvent::ThreeFingerSwipeLeftDown);

    let action_event = processor._end_event_to_action_event(-500, 0, 4);
    assert!(action_event.unwrap() == ActionEvent::FourFingerSwipeLeft);
    let action_event = processor._end_event_to_action_event(-s, -s, 4);
    assert!(action_event.unwrap() == ActionEvent::FourFingerSwipeLeftUp);
    let action_event = processor._end_event_to_action_event(0, -500, 4);
    assert!(action_event.unwrap() == ActionEvent::FourFingerSwipeUp);
    let action_event = processor._end_event_to_action_event(s, -s, 4);
    assert!(action_event.unwrap() == ActionEvent::FourFingerSwipeRightUp);
    let action_event = processor._end_event_to_action_event(500, 0, 4);
    assert!(action_event.unwrap() == ActionEvent::FourFingerSwipeRight);
    let action_event = processor._end_event_to_action_event(s, s, 4);
    assert!(action_event.unwrap() == ActionEvent::FourFingerSwipeRightDown);
    let action_event = processor._end_event_to_action_event(0, 500, 4);
    assert!(action_event.unwrap() == ActionEvent::FourFingerSwipeDown);
    let action_event = processor._end_event_to_action_event(-s, s, 4);
    assert!(action_event.unwrap() == ActionEvent::FourFingerSwipeLeftDown);
}

#[test]
/// Test the handling of different inverted directions.
fn test_multiple_directions_inverted() {
    // Initialize the processor, inverting both axes.
    let processor = DefaultProcessor::new(500, true, true);

    let s: i64 = 1250;
    // Trigger swipes for directions at the edges of the threshold.
    let action_event = processor._end_event_to_action_event(500, 0, 3);
    assert!(action_event.unwrap() == ActionEvent::ThreeFingerSwipeLeft);
    let action_event = processor._end_event_to_action_event(s, s, 3);
    assert!(action_event.unwrap() == ActionEvent::ThreeFingerSwipeLeftUp);
    let action_event = processor._end_event_to_action_event(0, 500, 3);
    assert!(action_event.unwrap() == ActionEvent::ThreeFingerSwipeUp);
    let action_event = processor._end_event_to_action_event(-s, s, 3);
    assert!(action_event.unwrap() == ActionEvent::ThreeFingerSwipeRightUp);
    let action_event = processor._end_event_to_action_event(-500, 0, 3);
    assert!(action_event.unwrap() == ActionEvent::ThreeFingerSwipeRight);
    let action_event = processor._end_event_to_action_event(-s, -s, 3);
    assert!(action_event.unwrap() == ActionEvent::ThreeFingerSwipeRightDown);
    let action_event = processor._end_event_to_action_event(0, -500, 3);
    assert!(action_event.unwrap() == ActionEvent::ThreeFingerSwipeDown);
    let action_event = processor._end_event_to_action_event(s, -s, 3);
    assert!(action_event.unwrap() == ActionEvent::ThreeFingerSwipeLeftDown);

    let action_event = processor._end_event_to_action_event(500, 0, 4);
    assert!(action_event.unwrap() == ActionEvent::FourFingerSwipeLeft);
    let action_event = processor._end_event_to_action_event(s, s, 4);
    assert!(action_event.unwrap() == ActionEvent::FourFingerSwipeLeftUp);
    let action_event = processor._end_event_to_action_event(0, 500, 4);
    assert!(action_event.unwrap() == ActionEvent::FourFingerSwipeUp);
    let action_event = processor._end_event_to_action_event(-s, s, 4);
    assert!(action_event.unwrap() == ActionEvent::FourFingerSwipeRightUp);
    let action_event = processor._end_event_to_action_event(-500, 0, 4);
    assert!(action_event.unwrap() == ActionEvent::FourFingerSwipeRight);
    let action_event = processor._end_event_to_action_event(-s, -s, 4);
    assert!(action_event.unwrap() == ActionEvent::FourFingerSwipeRightDown);
    let action_event = processor._end_event_to_action_event(0, -500, 4);
    assert!(action_event.unwrap() == ActionEvent::FourFingerSwipeDown);
    let action_event = processor._end_event_to_action_event(s, -s, 4);
    assert!(action_event.unwrap() == ActionEvent::FourFingerSwipeLeftDown);
}

#[test]
/// Swipes along the four cardinal directions with a threshold of five
/// units: right, left, up and down, for both finger counts.
fn test_cardinal_directions() {
    let processor = DefaultProcessor::new(500, false, false);

    assert_eq!(
        processor._end_event_to_action_event(1000, 0, 3),
        Ok(ActionEvent::ThreeFingerSwipeRight)
    );
    assert_eq!(
        processor._end_event_to_action_event(-1000, 0, 3),
        Ok(ActionEvent::ThreeFingerSwipeLeft)
    );
    assert_eq!(
        processor._end_event_to_action_event(0, -1000, 3),
        Ok(ActionEvent::ThreeFingerSwipeUp)
    );
    assert_eq!(
        processor._end_event_to_action_event(0, 1000, 3),
        Ok(ActionEvent::ThreeFingerSwipeDown)
    );
    assert_eq!(
        processor._end_event_to_action_event(1000, 0, 4),
        Ok(ActionEvent::FourFingerSwipeRight)
    );
    assert_eq!(
        processor._end_event_to_action_event(-1000, 0, 4),
        Ok(ActionEvent::FourFingerSwipeLeft)
    );
    assert_eq!(
        processor._end_event_to_action_event(0, -1000, 4),
        Ok(ActionEvent::FourFingerSwipeUp)
    );
    assert_eq!(
        processor._end_event_to_action_event(0, 1000, 4),
        Ok(ActionEvent::FourFingerSwipeDown)
    );
}

#[test]
/// An angle in the last half-sector of the turn rounds to the wrapped
/// sector and maps to the left direction, never to an out-of-range bucket.
fn test_octant_wraparound() {
    let processor = DefaultProcessor::default();

    // A swipe to the left with a slight downward component: the angle is
    // just below a full turn, in the sector that rounds upward and wraps.
    assert_eq!(
        processor._end_event_to_action_event(-1000, 1, 3),
        Ok(ActionEvent::ThreeFingerSwipeLeft)
    );
    // Just inside the wrapped sector: |dy| * (sqrt(2) + 1) < |dx|.
    assert_eq!(
        processor._end_event_to_action_event(-1000, 414, 3),
        Ok(ActionEvent::ThreeFingerSwipeLeft)
    );
    // Just outside: the swipe falls into the left-down octant instead.
    assert_eq!(
        processor._end_event_to_action_event(-1000, 415, 3),
        Ok(ActionEvent::ThreeFingerSwipeLeftDown)
    );
    // The mirrored boundary on the upper side maps to left as well.
    assert_eq!(
        processor._end_event_to_action_event(-1000, -414, 3),
        Ok(ActionEvent::ThreeFingerSwipeLeft)
    );
    assert_eq!(
        processor._end_event_to_action_event(-1000, -415, 3),
        Ok(ActionEvent::ThreeFingerSwipeLeftUp)
    );
}

#[test]
/// Any finger count other than three or four is rejected, whatever the
/// displacement.
fn test_unsupported_finger_counts() {
    let processor = DefaultProcessor::default();

    for count in [-1, 0, 1, 2, 5, 6, 10] {
        let action_event = processor._end_event_to_action_event(1000, 0, count);
        assert_eq!(
            action_event,
            Err(ProcessorError::UnsupportedFingerCount(count))
        );
        // The finger count is checked before the threshold.
        let action_event = processor._end_event_to_action_event(0, 0, count);
        assert_eq!(
            action_event,
            Err(ProcessorError::UnsupportedFingerCount(count))
        );
    }
}

#[test]
/// Any displacement whose magnitude is below the threshold is rejected,
/// for either supported finger count.
fn test_below_threshold_rejected() {
    let processor = DefaultProcessor::default();

    for (dx, dy) in [(0, 0), (300, 300), (-499, 0), (0, 499), (-300, -300)] {
        for count in [3, 4] {
            assert_eq!(
                processor._end_event_to_action_event(dx, dy, count),
                Err(ProcessorError::DisplacementBelowThreshold(500))
            );
        }
    }
}

#[test]
/// The classifier is pure: identical inputs always yield identical output.
fn test_classifier_is_pure() {
    let processor = DefaultProcessor::new(500, false, true);
    let samples = [
        (1000, -250, 3),
        (-333, 720, 4),
        (499, 0, 3),
        (0, 0, 7),
        (1250, 1250, 4),
    ];
    for (dx, dy, count) in samples {
        let first = processor._end_event_to_action_event(dx, dy, count);
        let second = processor._end_event_to_action_event(dx, dy, count);
        assert_eq!(first, second);
    }
}

#[test]
/// Inverting the `X` axis negates the effective `dx`: a swipe to the right
/// classifies as left, and the other way around.
fn test_invert_x() {
    let plain = DefaultProcessor::new(500, false, false);
    let inverted = DefaultProcessor::new(500, true, false);

    assert_eq!(
        plain._end_event_to_action_event(1000, 0, 3),
        Ok(ActionEvent::ThreeFingerSwipeRight)
    );
    assert_eq!(
        inverted._end_event_to_action_event(1000, 0, 3),
        Ok(ActionEvent::ThreeFingerSwipeLeft)
    );
    // The inverted classification matches classifying the negated dx.
    assert_eq!(
        inverted._end_event_to_action_event(720, -333, 4),
        plain._end_event_to_action_event(-720, -333, 4)
    );
}
