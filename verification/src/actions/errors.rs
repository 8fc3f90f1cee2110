//! Errors related to [`actions`].
//!
//! [`actions`]: crate::actions

use vstd::prelude::*;

verus! {

/// Errors raised during execution of an action.
#[derive(Clone, Debug, Eq, PartialEq)]
pub enum ActionError {
    /// Command execution resulted in error.
    ExecutionError {
        /// Action type.
        type_: String,
        /// Command error message.
        message: String,
    },
}

/// Whether `e` is an `ExecutionError` with exactly the given action type and
/// message.
pub open spec fn is_execution_error(e: ActionError, kind: Seq<char>, message: Seq<char>) -> bool {
    &&& e matches ActionError::ExecutionError { type_: t, message: m }
    &&& t@ == kind
    &&& m@ == message
}

impl ActionError {
    /// Render this error as text, for diagnostics.
    pub fn describe(&self) -> (r: String)
        ensures
            self matches ActionError::ExecutionError { type_, message } ==> r@ == type_@
                + ": command execution resulted in error: "@ + message@,
    {
        match self {
            ActionError::ExecutionError { type_, message } => {
                let mut s = type_.clone();
                s.append(": command execution resulted in error: ");
                s.append(message.as_str());
                s
            },
        }
    }
}

} // verus!
