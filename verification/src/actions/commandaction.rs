//! Action for executing commands.

use vstd::prelude::*;

use crate::actions::errors::{is_execution_error, ActionError};
use crate::actions::Spawner;

verus! {

/// What splitting a command line by POSIX shell word rules yields: the list
/// of words, or nothing when the input is erroneous.  The result depends on
/// the characters of the input alone.
pub uninterp spec fn split_of(command: Seq<char>) -> Option<Seq<Seq<char>>>;

/// Relies on `shlex::split`: splits a command line by POSIX shell word
/// rules, returning `None` for erroneous input such as an unclosed quote.
#[verifier::external_body]
fn shell_split(command: &String) -> (r: Option<Vec<String>>)
    ensures
        r is Some <==> split_of(command@) is Some,
        r matches Some(v) ==> v.deep_view() == split_of(command@)->Some_0,
{
    shlex::split(command)
}

/// Whether a command line cannot be turned into a program and its
/// arguments: splitting it fails, or yields no words at all.
pub open spec fn parse_failure(command: Seq<char>) -> bool {
    split_of(command) is None || split_of(command)->Some_0.len() == 0
}

/// The message reported for a command line that cannot be parsed.
pub open spec fn parse_error_message(command: Seq<char>) -> Seq<char> {
    "Unable to parse command: "@ + command
}

/// What executing a command action guarantees: an unparsable command line
/// fails with the exact parse error and is never handed to the spawner;
/// otherwise the spawner decides, and any failure it reports is wrapped as a
/// `command` execution error.
pub open spec fn command_post(command: Seq<char>, r: Result<(), ActionError>) -> bool {
    &&& parse_failure(command) ==> (r matches Err(e) && is_execution_error(
        e,
        "command"@,
        parse_error_message(command),
    ))
    &&& !parse_failure(command) ==> r is Ok || (r matches Err(e) && e matches
        ActionError::ExecutionError { type_, .. } && type_@ == "command"@)
}

/// Action that executes shell commands.
#[derive(Clone, Debug, Eq, PartialEq)]
pub struct CommandAction {
    /// Command to be executed in this action.
    pub command: String,
}

impl CommandAction {
    /// Create a new [`CommandAction`].
    pub fn new(command: String) -> (r: CommandAction)
        ensures
            r.command == command,
    {
        CommandAction { command }
    }

    /// Execute this action's command line: split it by shell word rules and
    /// hand the words to the spawner, waiting for completion.
    ///
    /// A non-zero exit code of the spawned program is not an error for this
    /// action; only failing to parse the command line or to start the
    /// program is.
    pub fn execute_command<S: Spawner>(&self, spawner: &mut S) -> (r: Result<(), ActionError>)
        ensures
            command_post(self.command@, r),
    {
        let split_commands = match shell_split(&self.command) {
            Some(v) => v,
            None => {
                return Err(self.parse_error());
            },
        };
        if split_commands.len() == 0 {
            return Err(self.parse_error());
        }
        match spawner.spawn_and_wait(&split_commands) {
            Ok(_) => Ok(()),
            Err(message) => Err(
                ActionError::ExecutionError { type_: "command".to_owned(), message },
            ),
        }
    }

    /// The error reported when this action's command line cannot be parsed.
    fn parse_error(&self) -> (r: ActionError)
        ensures
            is_execution_error(r, "command"@, parse_error_message(self.command@)),
    {
        let mut message: String = "Unable to parse command: ".to_owned();
        message.append(self.command.as_str());
        ActionError::ExecutionError { type_: "command".to_owned(), message }
    }
}

} // verus!
