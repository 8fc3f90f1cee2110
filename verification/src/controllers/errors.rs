//! Errors related to [`controllers`].
//!
//! [`controllers`]: crate::controllers

use vstd::prelude::*;

use crate::events::ActionEvent;

verus! {

/// Errors raised while processing action events in the controller.
#[derive(Copy, Clone, Eq, PartialEq, Structural, Debug)]
pub enum ControllerError {
    /// No actions registered for event.  The registry is total, so a
    /// well-formed controller never reports this.
    NoActionsRegistered(ActionEvent),
}

} // verus!
