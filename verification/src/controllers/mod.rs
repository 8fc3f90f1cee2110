//! Components for mapping action events to the actions they trigger.

pub mod defaultcontroller;
pub mod errors;

pub use crate::controllers::defaultcontroller::{ActionMap, DefaultController};
pub use crate::controllers::errors::ControllerError;
