//! Application settings and the configuration-driven construction of the
//! action registry.

use vstd::prelude::*;

use crate::actions::commandaction::CommandAction;
use crate::actions::i3action::{ConnectionManager, I3Action};
use crate::actions::{Action, ActionType};
use crate::controllers::defaultcontroller::ActionMap;
use crate::events::{lemma_position_injective, ActionEvent};

verus! {

/// Whether `i` is the position of the first colon in `s`.
pub open spec fn first_colon_at(s: Seq<char>, i: int) -> bool {
    &&& 0 <= i < s.len()
    &&& s[i] == ':'
    &&& forall|j: int| 0 <= j < i ==> s[j] != ':'
}

proof fn lemma_first_colon_unique(s: Seq<char>, i: int, j: int)
    requires
        first_colon_at(s, i),
        first_colon_at(s, j),
    ensures
        i == j,
{
    if i < j {
        assert(s[i] != ':');
    } else if j < i {
        assert(s[j] != ':');
    }
}

/// Whether `s` conforms to the `{type}:{command}` action string pattern: it
/// contains a colon, with at least one character on each side of the first
/// one.
pub open spec fn action_pattern_ok(s: Seq<char>) -> bool {
    exists|i: int| first_colon_at(s, i) && 0 < i < s.len() - 1
}

/// Whether the part of `s` before its first colon names a valid action
/// type.
pub open spec fn action_type_ok(s: Seq<char>) -> bool {
    exists|i: int|
        first_colon_at(s, i) && (s.subrange(0, i) == "i3"@ || s.subrange(0, i) == "command"@)
}

/// Find the first colon of `s`: its index, or the length of `s` when there
/// is none.
fn find_colon(s: &str) -> (r: usize)
    ensures
        r <= s@.len(),
        r < s@.len() ==> first_colon_at(s@, r as int),
        r == s@.len() ==> forall|j: int| 0 <= j < s@.len() ==> s@[j] != ':',
{
    let n = s.unicode_len();
    let mut colon: usize = n;
    let mut i: usize = 0;
    while i < n
        invariant
            0 <= i <= n,
            n == s@.len(),
            colon <= n,
            colon == n ==> forall|j: int| 0 <= j < i ==> s@[j] != ':',
            colon < n ==> first_colon_at(s@, colon as int),
        decreases n - i,
    {
        if colon == n {
            if s.get_char(i) == ':' {
                colon = i;
            }
        }
        i = i + 1;
    }
    colon
}

/// Errors raised while parsing an action string.
#[derive(Copy, Clone, Eq, PartialEq, Structural, Debug)]
pub enum ActionStringError {
    /// The value does not conform to the `{type}:{command}` pattern.
    InvalidPattern,
    /// The value does not start with a valid action type.
    InvalidType,
}

impl ActionStringError {
    /// Return a human-readable description of this error.
    pub fn describe(&self) -> (r: &'static str)
        ensures
            *self is InvalidPattern ==> r@
                == "The value does not conform to the action string pattern `{type}:{command}`"@,
            *self is InvalidType ==> r@ == "The value does not start with a valid action"@,
    {
        match self {
            ActionStringError::InvalidPattern => {
                "The value does not conform to the action string pattern `{type}:{command}`"
            },
            ActionStringError::InvalidType => "The value does not start with a valid action",
        }
    }
}

/// Representation of an action, as written in configuration: an action type
/// and the command it runs.
#[derive(Clone, Debug, Eq, PartialEq)]
pub struct StringifiedAction {
    /// Action type.
    pub type_: String,
    /// Action command.
    pub command: String,
}

impl StringifiedAction {
    /// Return a new [`StringifiedAction`].
    pub fn new(type_: &str, command: &str) -> (r: StringifiedAction)
        ensures
            r.type_@ == type_@,
            r.command@ == command@,
    {
        StringifiedAction { type_: type_.to_owned(), command: command.to_owned() }
    }

    /// Return an equal copy of this action.
    pub fn duplicate(&self) -> (r: StringifiedAction)
        ensures
            r == *self,
    {
        StringifiedAction { type_: self.type_.clone(), command: self.command.clone() }
    }

    /// Render this action as `{type}:{command}`.
    pub fn as_string(&self) -> (r: String)
        ensures
            r@ == self.type_@ + ":"@ + self.command@,
    {
        let mut s = self.type_.clone();
        s.append(":");
        s.append(self.command.as_str());
        s
    }

    /// Parse a `{type}:{command}` action string.
    ///
    /// The string is split at its first colon; both parts must be
    /// non-empty, and the part before the colon must name a valid action
    /// type.
    pub fn from_str(s: &str) -> (r: Result<StringifiedAction, ActionStringError>)
        ensures
            !action_pattern_ok(s@) ==> r == Err::<StringifiedAction, ActionStringError>(
                ActionStringError::InvalidPattern,
            ),
            action_pattern_ok(s@) && !action_type_ok(s@) ==> r == Err::<
                StringifiedAction,
                ActionStringError,
            >(ActionStringError::InvalidType),
            action_pattern_ok(s@) && action_type_ok(s@) ==> (r matches Ok(a) && forall|i: int|
                first_colon_at(s@, i) ==> a.type_@ == s@.subrange(0, i) && a.command@
                    == s@.subrange(i + 1, s@.len() as int)),
    {
        let n = s.unicode_len();
        let colon = find_colon(s);
        if colon == n {
            return Err(ActionStringError::InvalidPattern);
        }
        if colon == 0 || colon + 1 >= n {
            proof {
                assert forall|i: int| first_colon_at(s@, i) implies !(0 < i < s@.len() - 1) by {
                    lemma_first_colon_unique(s@, i, colon as int);
                }
            }
            return Err(ActionStringError::InvalidPattern);
        }
        let type_part = s.substring_char(0, colon);
        let command_part = s.substring_char(colon + 1, n);
        proof {
            assert forall|i: int| first_colon_at(s@, i) implies i == colon as int by {
                lemma_first_colon_unique(s@, i, colon as int);
            }
        }
        match ActionType::from_str(type_part) {
            Ok(_) => Ok(
                StringifiedAction {
                    type_: type_part.to_owned(),
                    command: command_part.to_owned(),
                },
            ),
            Err(_) => Err(ActionStringError::InvalidType),
        }
    }
}

/// Whether the action type named `t` is one of the enabled ones.
pub open spec fn type_enabled(t: Seq<char>, enabled: Seq<String>) -> bool {
    exists|k: int| 0 <= k < enabled.len() && enabled[k]@ == t
}

/// Whether `s` is an action string whose type is one of the enabled ones.
pub open spec fn enabled_action_string(s: Seq<char>, enabled: Seq<String>) -> bool {
    exists|i: int| first_colon_at(s, i) && type_enabled(s.subrange(0, i), enabled)
}

/// Whether the part of `t` matches one of the enabled action types.
fn contains_type(enabled: &Vec<String>, t: &String) -> (r: bool)
    ensures
        r == type_enabled(t@, enabled@),
{
    let mut k: usize = 0;
    while k < enabled.len()
        invariant
            0 <= k <= enabled@.len(),
            forall|j: int| 0 <= j < k ==> enabled@[j]@ != t@,
        decreases enabled@.len() - k,
    {
        if enabled[k] == *t {
            return true;
        }
        k = k + 1;
    }
    false
}

/// Check if an action string is valid and of an enabled action type.
///
/// A string that specifies an action must conform to the format
/// `{action choice}:{value}`, and `{action choice}` must be one of the
/// enabled action types.
pub fn is_enabled_action_string(action_string: &str, enabled_action_types: &Vec<String>) -> (r:
    bool)
    ensures
        r == enabled_action_string(action_string@, enabled_action_types@),
{
    let n = action_string.unicode_len();
    let colon = find_colon(action_string);
    if colon == n {
        return false;
    }
    let t: String = action_string.substring_char(0, colon).to_owned();
    let r = contains_type(enabled_action_types, &t);
    proof {
        if !r {
            assert forall|i: int| first_colon_at(action_string@, i) implies !type_enabled(
                action_string@.subrange(0, i),
                enabled_action_types@,
            ) by {
                lemma_first_colon_unique(action_string@, i, colon as int);
            }
        }
    }
    r
}

/// Application settings: the resolved configuration that the registry and
/// the processor are built from.
///
/// The threshold is in ticks (hundredths of the device unit); the action
/// lists are keyed by event name, as in configuration files.
#[derive(Clone, Debug, Eq, PartialEq)]
pub struct Settings {
    /// Input device seat.
    pub seat: String,
    /// Enabled action types.
    pub enabled_action_types: Vec<String>,
    /// Minimum threshold for displacement changes, in ticks.
    pub threshold: i64,
    /// Whether positive `X` displacement should be interpreted as "left".
    pub invert_x: bool,
    /// Whether positive `Y` displacement should be interpreted as "up".
    pub invert_y: bool,
    /// List of actions for each action event, keyed by event name.
    pub actions: Vec<(String, Vec<StringifiedAction>)>,
}

/// The entries of `entries` whose action type is one of the enabled ones,
/// in order.
pub open spec fn kept_entries(entries: Seq<StringifiedAction>, enabled: Seq<String>) -> Seq<
    StringifiedAction,
>
    decreases entries.len(),
{
    if entries.len() == 0 {
        Seq::empty()
    } else {
        let rest = kept_entries(entries.drop_last(), enabled);
        if type_enabled(entries.last().type_@, enabled) {
            rest.push(entries.last())
        } else {
            rest
        }
    }
}

impl Settings {
    /// Prune action entries, removing those whose action type is not
    /// enabled; everything else is left untouched, and the surviving
    /// entries keep their order.
    pub fn prune_actions(&mut self)
        ensures
            final(self).seat == old(self).seat,
            final(self).enabled_action_types == old(self).enabled_action_types,
            final(self).threshold == old(self).threshold,
            final(self).invert_x == old(self).invert_x,
            final(self).invert_y == old(self).invert_y,
            final(self).actions@.len() == old(self).actions@.len(),
            forall|i: int|
                0 <= i < old(self).actions@.len() ==> (#[trigger] final(self).actions@[i]).0
                    == old(self).actions@[i].0 && final(self).actions@[i].1@ == kept_entries(
                    old(self).actions@[i].1@,
                    old(self).enabled_action_types@,
                ),
    {
        let mut pruned: Vec<(String, Vec<StringifiedAction>)> = Vec::new();
        let n = self.actions.len();
        let mut i: usize = 0;
        while i < n
            invariant
                *self == *old(self),
                i <= n,
                n == self.actions@.len(),
                pruned@.len() == i,
                forall|j: int|
                    0 <= j < i ==> (#[trigger] pruned@[j]).0 == self.actions@[j].0
                        && pruned@[j].1@ == kept_entries(
                        self.actions@[j].1@,
                        self.enabled_action_types@,
                    ),
            decreases n - i,
        {
            let key = self.actions[i].0.clone();
            let entries = &self.actions[i].1;
            let m = entries.len();
            let mut kept: Vec<StringifiedAction> = Vec::new();
            let mut k: usize = 0;
            while k < m
                invariant
                    *self == *old(self),
                    k <= m,
                    i < n,
                    n == self.actions@.len(),
                    m == entries@.len(),
                    entries == &self.actions@[i as int].1,
                    kept@ == kept_entries(
                        entries@.subrange(0, k as int),
                        self.enabled_action_types@,
                    ),
                decreases m - k,
            {
                let entry = &entries[k];
                if contains_type(&self.enabled_action_types, &entry.type_) {
                    kept.push(entry.duplicate());
                }
                proof {
                    let prefix = entries@.subrange(0, k + 1);
                    assert(prefix.drop_last() =~= entries@.subrange(0, k as int));
                    assert(prefix.last() == entries@[k as int]);
                }
                k = k + 1;
            }
            proof {
                assert(entries@.subrange(0, m as int) =~= entries@);
            }
            pruned.push((key, kept));
            i = i + 1;
        }
        self.actions = pruned;
    }
}

impl Default for Settings {
    /// The default settings: seat `seat0`, only `i3` actions enabled, a
    /// threshold of twenty device units, no axis inversion, and workspace
    /// switching bound to three-finger horizontal swipes.
    fn default() -> (r: Settings)
        ensures
            r.seat@ == "seat0"@,
            r.enabled_action_types@.len() == 1,
            r.enabled_action_types@[0]@ == "i3"@,
            r.threshold == 2000,
            !r.invert_x,
            !r.invert_y,
            r.actions@.len() == 8,
            r.actions@[0].0@ == ActionEvent::ThreeFingerSwipeLeft.spec_name(),
            r.actions@[0].1@.len() == 1,
            r.actions@[0].1@[0].type_@ == "i3"@,
            r.actions@[0].1@[0].command@ == "workspace prev"@,
            r.actions@[1].0@ == ActionEvent::ThreeFingerSwipeRight.spec_name(),
            r.actions@[1].1@.len() == 1,
            r.actions@[1].1@[0].type_@ == "i3"@,
            r.actions@[1].1@[0].command@ == "workspace next"@,
            r.actions@[2].0@ == ActionEvent::ThreeFingerSwipeUp.spec_name(),
            r.actions@[2].1@.len() == 0,
            r.actions@[3].0@ == ActionEvent::ThreeFingerSwipeDown.spec_name(),
            r.actions@[3].1@.len() == 0,
            r.actions@[4].0@ == ActionEvent::FourFingerSwipeLeft.spec_name(),
            r.actions@[4].1@.len() == 0,
            r.actions@[5].0@ == ActionEvent::FourFingerSwipeRight.spec_name(),
            r.actions@[5].1@.len() == 0,
            r.actions@[6].0@ == ActionEvent::FourFingerSwipeUp.spec_name(),
            r.actions@[6].1@.len() == 0,
            r.actions@[7].0@ == ActionEvent::FourFingerSwipeDown.spec_name(),
            r.actions@[7].1@.len() == 0,
    {
        let mut enabled_action_types: Vec<String> = Vec::new();
        enabled_action_types.push("i3".to_owned());
        let mut actions: Vec<(String, Vec<StringifiedAction>)> = Vec::new();
        actions.push(
            (
                ActionEvent::ThreeFingerSwipeLeft.name().to_owned(),
                vec![StringifiedAction::new("i3", "workspace prev")],
            ),
        );
        actions.push(
            (
                ActionEvent::ThreeFingerSwipeRight.name().to_owned(),
                vec![StringifiedAction::new("i3", "workspace next")],
            ),
        );
        actions.push((ActionEvent::ThreeFingerSwipeUp.name().to_owned(), Vec::new()));
        actions.push((ActionEvent::ThreeFingerSwipeDown.name().to_owned(), Vec::new()));
        actions.push((ActionEvent::FourFingerSwipeLeft.name().to_owned(), Vec::new()));
        actions.push((ActionEvent::FourFingerSwipeRight.name().to_owned(), Vec::new()));
        actions.push((ActionEvent::FourFingerSwipeUp.name().to_owned(), Vec::new()));
        actions.push((ActionEvent::FourFingerSwipeDown.name().to_owned(), Vec::new()));
        Settings {
            seat: "seat0".to_owned(),
            enabled_action_types,
            threshold: 2000,
            invert_x: false,
            invert_y: false,
            actions,
        }
    }
}

/// The action that a configuration entry stands for.
pub open spec fn action_of(entry: StringifiedAction) -> Action {
    if entry.type_@ == "command"@ {
        Action::Command(CommandAction { command: entry.command })
    } else {
        Action::I3(I3Action { command: entry.command })
    }
}

/// Whether a configuration entry survives registry construction: command
/// actions always do; `i3` actions only when the connection exists; entries
/// of unknown type are dropped.
pub open spec fn entry_kept(entry: StringifiedAction, i3_connected: bool) -> bool {
    entry.type_@ == "command"@ || (entry.type_@ == "i3"@ && i3_connected)
}

/// The actions built from a list of configuration entries, in order.
pub open spec fn parsed_actions(entries: Seq<StringifiedAction>, i3_connected: bool) -> Seq<
    Action,
>
    decreases entries.len(),
{
    if entries.len() == 0 {
        Seq::empty()
    } else {
        let rest = parsed_actions(entries.drop_last(), i3_connected);
        if entry_kept(entries.last(), i3_connected) {
            rest.push(action_of(entries.last()))
        } else {
            rest
        }
    }
}

/// Convert a stringified action list into individual actions, dropping
/// `i3` entries when no connection exists and entries of unknown type.
fn parse_action_list(arguments: &Vec<StringifiedAction>, i3_connected: bool) -> (r: Vec<Action>)
    ensures
        r@ == parsed_actions(arguments@, i3_connected),
{
    let mut actions_list: Vec<Action> = Vec::new();
    let mut k: usize = 0;
    while k < arguments.len()
        invariant
            k <= arguments@.len(),
            actions_list@ == parsed_actions(arguments@.subrange(0, k as int), i3_connected),
        decreases arguments@.len() - k,
    {
        let entry = &arguments[k];
        match ActionType::from_str(entry.type_.as_str()) {
            Ok(ActionType::Command) => {
                actions_list.push(Action::Command(CommandAction::new(entry.command.clone())));
            },
            Ok(ActionType::I3) => {
                if i3_connected {
                    actions_list.push(Action::I3(I3Action::new(entry.command.clone())));
                }
            },
            Err(_) => {},
        }
        proof {
            let prefix = arguments@.subrange(0, k + 1);
            assert(prefix.drop_last() =~= arguments@.subrange(0, k as int));
            assert(prefix.last() == arguments@[k as int]);
        }
        k = k + 1;
    }
    proof {
        assert(arguments@.subrange(0, arguments@.len() as int) =~= arguments@);
    }
    actions_list
}

/// The action list registered for `key`: the value of its first entry, or
/// the empty list when no entry carries that key.
pub open spec fn lookup_actions(
    entries: Seq<(String, Vec<StringifiedAction>)>,
    key: Seq<char>,
) -> Seq<StringifiedAction>
    decreases entries.len(),
{
    if entries.len() == 0 {
        Seq::empty()
    } else if entries[0].0@ == key {
        entries[0].1@
    } else {
        lookup_actions(entries.subrange(1, entries.len() as int), key)
    }
}

proof fn lemma_lookup_skip(entries: Seq<(String, Vec<StringifiedAction>)>, key: Seq<char>, i: int)
    requires
        0 <= i <= entries.len(),
        forall|j: int| 0 <= j < i ==> (#[trigger] entries[j]).0@ != key,
    ensures
        lookup_actions(entries.subrange(i, entries.len() as int), key) == lookup_actions(
            entries,
            key,
        ),
    decreases i,
{
    if i > 0 {
        let rest = entries.subrange(1, entries.len() as int);
        assert(entries[0].0@ != key);
        assert forall|j: int| 0 <= j < i - 1 implies (#[trigger] rest[j]).0@ != key by {
            assert(rest[j] == entries[j + 1]);
        }
        lemma_lookup_skip(rest, key, i - 1);
        assert(rest.subrange(i - 1, rest.len() as int) =~= entries.subrange(
            i,
            entries.len() as int,
        ));
    } else {
        assert(entries.subrange(0, entries.len() as int) =~= entries);
    }
}

/// Find the first entry keyed by `key`.
fn find_entry(entries: &Vec<(String, Vec<StringifiedAction>)>, key: &String) -> (r: Option<usize>)
    ensures
        r matches Some(i) ==> i < entries@.len() && entries@[i as int].1@ == lookup_actions(
            entries@,
            key@,
        ),
        r is None ==> lookup_actions(entries@, key@) == Seq::<StringifiedAction>::empty(),
{
    let mut i: usize = 0;
    while i < entries.len()
        invariant
            i <= entries@.len(),
            forall|j: int| 0 <= j < i ==> (#[trigger] entries@[j]).0@ != key@,
        decreases entries@.len() - i,
    {
        if entries[i].0 == *key {
            proof {
                lemma_lookup_skip(entries@, key@, i as int);
            }
            return Some(i);
        }
        i = i + 1;
    }
    proof {
        lemma_lookup_skip(entries@, key@, entries@.len() as int);
        assert(entries@.subrange(entries@.len() as int, entries@.len() as int) =~= Seq::<
            (String, Vec<StringifiedAction>),
        >::empty());
    }
    None
}

/// Whether any configured entry, enabled or not, is an `i3` action — the
/// condition under which a connection is attempted at all.
pub open spec fn wants_i3(entries: Seq<(String, Vec<StringifiedAction>)>) -> bool {
    exists|i: int, k: int|
        0 <= i < entries.len() && 0 <= k < entries[i].1@.len() && (#[trigger] entries[i].1@[k]).type_@
            == "i3"@
}

fn wants_i3_exec(entries: &Vec<(String, Vec<StringifiedAction>)>) -> (r: bool)
    ensures
        r == wants_i3(entries@),
{
    let i3_name: String = "i3".to_owned();
    let mut i: usize = 0;
    while i < entries.len()
        invariant
            i <= entries@.len(),
            i3_name@ == "i3"@,
            forall|j: int, k: int|
                0 <= j < i && 0 <= k < (#[trigger] entries@[j]).1@.len() ==> (
                #[trigger] entries@[j].1@[k]).type_@ != "i3"@,
        decreases entries@.len() - i,
    {
        let list = &entries[i].1;
        let mut k: usize = 0;
        while k < list.len()
            invariant
                k <= list@.len(),
                i < entries@.len(),
                i3_name@ == "i3"@,
                list == &entries@[i as int].1,
                forall|j: int| 0 <= j < k ==> (#[trigger] list@[j]).type_@ != "i3"@,
            decreases list@.len() - k,
        {
            if list[k].type_ == i3_name {
                return true;
            }
            k = k + 1;
        }
        i = i + 1;
    }
    false
}

/// Generate the action registry from application settings, attempting the
/// window-manager connection exactly when some configured entry asks for an
/// `i3` action.
///
/// Each event's list is built from the configuration entry keyed by the
/// event's name: command actions are kept, `i3` actions are kept only when
/// the connection was established, and entries of unknown type are dropped.
pub fn extract_action_map(settings: &Settings) -> (r: (ActionMap, ConnectionManager))
    ensures
        r.0.wf(),
        r.1.attempted == wants_i3(settings.actions@),
        !wants_i3(settings.actions@) ==> r.1.connection is None,
        forall|e: ActionEvent|
            #[trigger] r.0.spec_get(e) == parsed_actions(
                lookup_actions(settings.actions@, e.spec_name()),
                r.1.connection is Some,
            ),
{
    let mut connection = ConnectionManager::new();
    if wants_i3_exec(&settings.actions) {
        let _failure = connection.acquire();
    }
    let connected = connection.is_connected();
    let mut map = ActionMap::new();
    let events = ActionEvent::all();
    let mut i: usize = 0;
    while i < events.len()
        invariant
            events@.len() == 16,
            forall|j: int| 0 <= j < 16 ==> (#[trigger] events@[j]).position() == j,
            map.wf(),
            connected == (connection.connection is Some),
            forall|j: int|
                0 <= j < i ==> (#[trigger] map.actions@[j])@ == parsed_actions(
                    lookup_actions(settings.actions@, events@[j].spec_name()),
                    connected,
                ),
        decreases events@.len() - i,
    {
        let event = events[i];
        let list = match find_entry(&settings.actions, &event.name().to_owned()) {
            Some(idx) => parse_action_list(&settings.actions[idx].1, connected),
            None => Vec::new(),
        };
        map.insert(event, list);
        i = i + 1;
    }
    proof {
        assert forall|e: ActionEvent|
            #[trigger] map.spec_get(e) == parsed_actions(
                lookup_actions(settings.actions@, e.spec_name()),
                connected,
            ) by {
            let j = e.position();
            lemma_position_injective(events@[j], e);
        }
    }
    (map, connection)
}

} // verus!
