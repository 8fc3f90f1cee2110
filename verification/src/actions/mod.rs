//! Building blocks for actions.

pub mod commandaction;
pub mod errors;
pub mod i3action;

use vstd::prelude::*;

use crate::actions::commandaction::{command_post, CommandAction};
use crate::actions::errors::ActionError;
use crate::actions::i3action::{try_run_post, ConnectionManager, I3Action};

verus! {

/// Possible choices for action types.
#[derive(Copy, Clone, Eq, PartialEq, Structural, Debug)]
pub enum ActionType {
    /// Action for interacting with `i3`.
    I3,
    /// Action for executing commands.
    Command,
}

impl ActionType {
    /// The kebab-case name of this action type.
    pub open spec fn spec_name(self) -> Seq<char> {
        match self {
            ActionType::I3 => "i3"@,
            ActionType::Command => "command"@,
        }
    }

    /// Return the kebab-case name of this action type.
    pub fn name(&self) -> (r: &'static str)
        ensures
            r@ == self.spec_name(),
    {
        match self {
            ActionType::I3 => "i3",
            ActionType::Command => "command",
        }
    }

    /// Parse an action type from its name, accepting exactly the names of
    /// the two variants.
    pub fn from_str(s: &str) -> (r: Result<ActionType, ()>)
        ensures
            s@ == "i3"@ ==> r == Ok::<ActionType, ()>(ActionType::I3),
            s@ == "command"@ ==> r == Ok::<ActionType, ()>(ActionType::Command),
            s@ != "i3"@ && s@ != "command"@ ==> r == Err::<ActionType, ()>(()),
    {
        proof {
            reveal_strlit("i3");
            reveal_strlit("command");
            assert("i3"@.len() == 2);
            assert("command"@.len() == 7);
        }
        let owned: String = s.to_owned();
        if owned == "i3".to_owned() {
            Ok(ActionType::I3)
        } else if owned == "command".to_owned() {
            Ok(ActionType::Command)
        } else {
            Err(())
        }
    }

    /// Return the names of all action types.
    pub fn variants() -> (r: Vec<&'static str>)
        ensures
            r@.len() == 2,
            r@[0]@ == ActionType::I3.spec_name(),
            r@[1]@ == ActionType::Command.spec_name(),
    {
        let mut v: Vec<&'static str> = Vec::new();
        v.push("i3");
        v.push("command");
        v
    }
}

/// The OS process execution collaborator: spawns a program with its
/// arguments and waits for it to finish.
///
/// The library only decides what to spawn; performing the spawn is outside
/// work, implemented by the embedding application (and by test doubles).  An
/// error is the reason the program could not be started, rendered as text; a
/// non-zero exit code of a program that did run is not an error.
pub trait Spawner {
    /// Spawn `argv[0]` with the remaining words as arguments and wait for
    /// completion.
    fn spawn_and_wait(&mut self, argv: &Vec<String>) -> Result<(), String>;
}

/// Handler for a single action triggered by an event.
///
/// The set of action kinds is closed, so actions are a sum type dispatched
/// by pattern match.
#[derive(Clone, Debug, Eq, PartialEq)]
pub enum Action {
    /// Action that executes shell commands.
    Command(CommandAction),
    /// Action that executes `i3` commands.
    I3(I3Action),
}

impl Action {
    /// The stable textual rendering of this action, `{kind}:<{command}>`,
    /// used only for diagnostics.
    pub open spec fn spec_fmt(self) -> Seq<char> {
        match self {
            Action::Command(c) => ActionType::Command.spec_name() + ":<"@ + c.command@ + ">"@,
            Action::I3(a) => ActionType::I3.spec_name() + ":<"@ + a.command@ + ">"@,
        }
    }

    /// Format the contents of the action as a [`String`].
    pub fn fmt_command(&self) -> (r: String)
        ensures
            r@ == self.spec_fmt(),
    {
        let (kind, command): (&'static str, &String) = match self {
            Action::Command(c) => (ActionType::Command.name(), &c.command),
            Action::I3(a) => (ActionType::I3.name(), &a.command),
        };
        let mut s: String = kind.to_owned();
        s.append(":<");
        s.append(command.as_str());
        s.append(">");
        s
    }

    /// Execute the command for this action, against the shared connection
    /// for `i3` actions and through the spawner for command actions.
    pub fn execute_command<S: Spawner>(
        &self,
        connection: &mut ConnectionManager,
        spawner: &mut S,
    ) -> (r: Result<(), ActionError>)
        ensures
            final(connection).attempted == old(connection).attempted,
            final(connection).connection is Some <==> old(connection).connection is Some,
            self matches Action::Command(c) ==> command_post(c.command@, r),
            self matches Action::I3(a) ==> try_run_post(*old(connection), r),
    {
        match self {
            Action::Command(c) => c.execute_command(spawner),
            Action::I3(a) => a.execute_command(connection),
        }
    }
}

} // verus!
