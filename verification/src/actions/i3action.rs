//! Action for interacting with `i3`.

use vstd::prelude::*;

use crate::actions::errors::{is_execution_error, ActionError};

verus! {

#[verifier::external_type_specification]
#[verifier::external_body]
/// The window manager's IPC connection, opaque to this crate.
pub struct ExI3Connection(i3ipc::I3Connection);

/// Relies on `i3ipc::I3Connection::connect`: establishes the IPC connection
/// to the window manager over its socket.  Whether it succeeds depends on
/// the environment, so nothing is promised of the outcome; a failure is
/// rendered as its message.
#[verifier::external_body]
fn i3_connect() -> (r: Result<i3ipc::I3Connection, String>) {
    i3ipc::I3Connection::connect().map_err(|e| e.to_string())
}

/// Relies on `i3ipc::I3Connection::run_command`: sends the command to the
/// window manager and returns one success flag per sub-command of the
/// reply, or the transport error rendered as its message.  The reply
/// depends on the window manager, so nothing is promised of the outcome.
#[verifier::external_body]
fn i3_run_command(connection: &mut i3ipc::I3Connection, command: &String) -> (r: Result<
    Vec<bool>,
    String,
>) {
    match connection.run_command(command) {
        Ok(reply) => Ok(reply.outcomes.iter().map(|o| o.success).collect()),
        Err(e) => Err(e.to_string()),
    }
}

/// Relies on `i3ipc::I3Connection::get_version`: asks the window manager
/// for its version and returns the human-readable form, if any.
#[verifier::external_body]
fn i3_get_version(connection: &mut i3ipc::I3Connection) -> (r: Option<String>) {
    connection.get_version().ok().map(|v| v.human_readable)
}

/// Turn the per-sub-command success flags of a command reply into the
/// action's result: the command succeeded exactly when every outcome did.
pub fn outcomes_to_result(outcomes: &Vec<bool>) -> (r: Result<(), ActionError>)
    ensures
        r is Ok <==> (forall|i: int| 0 <= i < outcomes@.len() ==> outcomes@[i]),
        r matches Err(e) ==> is_execution_error(e, "i3"@, "unsuccessful outcome(s)"@),
{
    let mut i: usize = 0;
    while i < outcomes.len()
        invariant
            0 <= i <= outcomes@.len(),
            forall|j: int| 0 <= j < i ==> outcomes@[j],
        decreases outcomes@.len() - i,
    {
        if !outcomes[i] {
            return Err(
                ActionError::ExecutionError {
                    type_: "i3".to_owned(),
                    message: "unsuccessful outcome(s)".to_owned(),
                },
            );
        }
        i = i + 1;
    }
    Ok(())
}

/// Owner of the at-most-one IPC connection to the window manager per
/// process: created lazily, and never retried after a failed attempt.
pub struct ConnectionManager {
    /// The connection slot; `None` before the first attempt and after a
    /// failed one.
    pub connection: Option<i3ipc::I3Connection>,
    /// Whether a connection attempt has been made.
    pub attempted: bool,
}

/// What running a command against the manager guarantees: an absent
/// connection fails with the exact "connection is not set" error without
/// reaching the window manager; with a connection present the window
/// manager decides, and any failure is reported as an `i3` execution error.
pub open spec fn try_run_post(before: ConnectionManager, r: Result<(), ActionError>) -> bool {
    &&& before.connection is None ==> (r matches Err(e) && is_execution_error(
        e,
        "i3"@,
        "i3 connection is not set"@,
    ))
    &&& before.connection is Some ==> r is Ok || (r matches Err(e) && e matches
        ActionError::ExecutionError { type_, .. } && type_@ == "i3"@)
}

impl ConnectionManager {
    /// Return a manager that has not yet attempted to connect.
    pub fn new() -> (r: ConnectionManager)
        ensures
            !r.attempted,
            r.connection is None,
    {
        ConnectionManager { connection: None, attempted: false }
    }

    /// Attempt to establish the connection, once per process lifetime: if an
    /// attempt was already made the manager is left untouched, whether or
    /// not it succeeded — a failed attempt is terminal.
    ///
    /// Returns the connection error's message when this attempt failed.
    pub fn acquire(&mut self) -> (r: Option<String>)
        ensures
            final(self).attempted,
            old(self).attempted ==> *final(self) == *old(self) && r is None,
            !old(self).attempted ==> (r is Some <==> final(self).connection is None),
    {
        if self.attempted {
            return None;
        }
        self.attempted = true;
        match i3_connect() {
            Ok(connection) => {
                self.connection = Some(connection);
                None
            },
            Err(message) => {
                self.connection = None;
                Some(message)
            },
        }
    }

    /// Whether the slot currently holds a connection.
    pub fn is_connected(&self) -> (r: bool)
        ensures
            r == (self.connection is Some),
    {
        self.connection.is_some()
    }

    /// The window manager's version in human-readable form, if a connection
    /// is present and the window manager reports it.
    pub fn human_version(&mut self) -> (r: Option<String>)
        ensures
            final(self).attempted == old(self).attempted,
            final(self).connection is Some <==> old(self).connection is Some,
            old(self).connection is None ==> r is None,
    {
        match &mut self.connection {
            Some(connection) => i3_get_version(connection),
            None => None,
        }
    }

    /// Issue a command over the connection, inspecting the reply's
    /// per-sub-command outcomes.
    pub fn try_run(&mut self, command: &String) -> (r: Result<(), ActionError>)
        ensures
            final(self).attempted == old(self).attempted,
            final(self).connection is Some <==> old(self).connection is Some,
            try_run_post(*old(self), r),
    {
        match &mut self.connection {
            None => Err(
                ActionError::ExecutionError {
                    type_: "i3".to_owned(),
                    message: "i3 connection is not set".to_owned(),
                },
            ),
            Some(connection) => {
                match i3_run_command(connection, command) {
                    Err(message) => Err(
                        ActionError::ExecutionError { type_: "i3".to_owned(), message },
                    ),
                    Ok(outcomes) => outcomes_to_result(&outcomes),
                }
            },
        }
    }
}

/// Action that executes `i3` commands.
#[derive(Clone, Debug, Eq, PartialEq)]
pub struct I3Action {
    /// `i3` command to be executed in this action.
    pub command: String,
}

impl I3Action {
    /// Create a new [`I3Action`].
    pub fn new(command: String) -> (r: I3Action)
        ensures
            r.command == command,
    {
        I3Action { command }
    }

    /// Execute this action's command against the shared connection.
    pub fn execute_command(&self, connection: &mut ConnectionManager) -> (r: Result<
        (),
        ActionError,
    >)
        ensures
            final(connection).attempted == old(connection).attempted,
            final(connection).connection is Some <==> old(connection).connection is Some,
            try_run_post(*old(connection), r),
    {
        connection.try_run(&self.command)
    }
}

} // verus!
