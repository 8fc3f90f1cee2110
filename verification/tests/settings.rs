//! Tests for action strings, settings and registry construction.

use lillinput::actions::Action;
use lillinput::settings::{
    extract_action_map, is_enabled_action_string, ActionStringError, Settings, StringifiedAction,
};
use lillinput::events::ActionEvent;

/// Settings with the given action entries and only `i3` actions enabled.
fn settings_with_actions(actions: Vec<(String, Vec<StringifiedAction>)>) -> Settings {
    Settings {
        seat: String::from("seat0"),
        enabled_action_types: vec![String::from("i3")],
        threshold: 500,
        invert_x: false,
        invert_y: false,
        actions,
    }
}

#[test]
/// A well-formed action string parses into its type and command.
fn test_from_str_valid() {
    let action = StringifiedAction::from_str("i3:foo").unwrap();
    assert_eq!(action, StringifiedAction::new("i3", "foo"));

    let action = StringifiedAction::from_str("command:touch /tmp/swipe").unwrap();
    assert_eq!(action.type_, "command");
    assert_eq!(action.command, "touch /tmp/swipe");
}

#[test]
/// The split happens at the first colon; later colons belong to the
/// command.
fn test_from_str_splits_at_first_colon() {
    let action = StringifiedAction::from_str("i3:a:b").unwrap();
    assert_eq!(action.type_, "i3");
    assert_eq!(action.command, "a:b");
}

#[test]
/// A string without a colon, or with an empty side, is rejected as not
/// conforming to the pattern.
fn test_from_str_invalid_pattern() {
    for s in ["invalid", "", ":", "i3:", ":bar", ":::"] {
        assert_eq!(
            StringifiedAction::from_str(s),
            Err(ActionStringError::InvalidPattern),
            "{:?} should not conform to the pattern",
            s
        );
    }
    assert!(ActionStringError::InvalidPattern
        .describe()
        .contains("does not conform to the action string pattern"));
}

#[test]
/// A conforming string whose type part is not a valid action type is
/// rejected.
fn test_from_str_invalid_action_string() {
    for s in ["invalid:bar", "I3:foo", "commands:x"] {
        assert_eq!(
            StringifiedAction::from_str(s),
            Err(ActionStringError::InvalidType),
            "{:?} should not name a valid action type",
            s
        );
    }
    assert!(ActionStringError::InvalidType
        .describe()
        .contains("does not start with a valid action"));
}

#[test]
/// An action renders back as `{type}:{command}`.
fn test_action_as_string() {
    assert_eq!(StringifiedAction::new("i3", "foo").as_string(), "i3:foo");
    assert_eq!(
        StringifiedAction::new("command", "touch a:b").as_string(),
        "command:touch a:b"
    );
}

#[test]
/// An action string is enabled when it has a colon and its type part is
/// among the enabled action types.
fn test_is_enabled_action_string() {
    let enabled = vec![String::from("i3")];
    assert!(is_enabled_action_string("i3:foo", &enabled));
    assert!(is_enabled_action_string("i3:", &enabled));
    assert!(!is_enabled_action_string("command:foo", &enabled));
    assert!(!is_enabled_action_string("invalid", &enabled));
    assert!(!is_enabled_action_string(":foo", &enabled));

    let both = vec![String::from("i3"), String::from("command")];
    assert!(is_enabled_action_string("command:foo", &both));
}

#[test]
/// The default settings: seat0, i3 only, a threshold of twenty units and
/// workspace switching on three-finger horizontal swipes.
fn test_default_settings() {
    let settings = Settings::default();
    assert_eq!(settings.seat, "seat0");
    assert_eq!(settings.enabled_action_types, vec![String::from("i3")]);
    assert_eq!(settings.threshold, 2000);
    assert!(!settings.invert_x);
    assert!(!settings.invert_y);
    assert_eq!(settings.actions.len(), 8);
    assert_eq!(
        settings.actions[0],
        (
            String::from("three-finger-swipe-left"),
            vec![StringifiedAction::new("i3", "workspace prev")]
        )
    );
    assert_eq!(
        settings.actions[1],
        (
            String::from("three-finger-swipe-right"),
            vec![StringifiedAction::new("i3", "workspace next")]
        )
    );
    for (_, value) in &settings.actions[2..] {
        assert!(value.is_empty());
    }
}

#[test]
/// Pruning drops the entries whose action type is not enabled and keeps
/// the others in order.
fn test_prune_actions() {
    let mut settings = settings_with_actions(vec![(
        String::from("three-finger-swipe-left"),
        vec![
            StringifiedAction::new("command", "bar"),
            StringifiedAction::new("i3", "3left"),
        ],
    )]);

    settings.prune_actions();

    assert_eq!(
        settings.actions,
        vec![(
            String::from("three-finger-swipe-left"),
            vec![StringifiedAction::new("i3", "3left")]
        )]
    );
}

#[test]
/// Test graceful handling of unavailable i3 connection: with no window
/// manager to connect to, only the command action is created.
fn utils_test_i3_not_available() {
    let settings = settings_with_actions(vec![(
        String::from("three-finger-swipe-right"),
        vec![
            StringifiedAction::new("i3", "swipe right"),
            StringifiedAction::new("command", "touch /tmp/swipe-right"),
        ],
    )]);

    let (actions, connection) = extract_action_map(&settings);

    // A connection was attempted, and failed terminally.
    assert!(connection.attempted);
    assert!(connection.connection.is_none());

    // Assert that only the command action is created.
    let list = actions.get(ActionEvent::ThreeFingerSwipeRight);
    assert_eq!(list.len(), 1);
    assert_eq!(list[0].fmt_command(), "command:<touch /tmp/swipe-right>");
}

#[test]
/// With no i3 action configured, no connection is ever attempted.
fn test_extract_action_map_without_i3() {
    let settings = settings_with_actions(vec![
        (
            String::from("three-finger-swipe-left"),
            vec![StringifiedAction::new("command", "touch /tmp/left")],
        ),
        (
            String::from("four-finger-swipe-up"),
            vec![StringifiedAction::new("bogus", "dropped")],
        ),
    ]);

    let (actions, connection) = extract_action_map(&settings);

    assert!(!connection.attempted);
    assert!(connection.connection.is_none());

    let list = actions.get(ActionEvent::ThreeFingerSwipeLeft);
    assert_eq!(list.len(), 1);
    assert!(matches!(list[0], Action::Command(_)));

    // The entry of unknown type was dropped.
    assert!(actions.get(ActionEvent::FourFingerSwipeUp).is_empty());
    // Events without a configuration entry have an empty list.
    assert!(actions.get(ActionEvent::FourFingerSwipeDown).is_empty());
}
