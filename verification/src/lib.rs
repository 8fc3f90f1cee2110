//! Connect touchpad swipe gestures to window-manager and shell actions.
//!
//! The library turns a stream of swipe sub-events (begin, update, end) into
//! discrete [`events::ActionEvent`]s — a finger count combined with one of
//! eight compass directions — and dispatches the actions registered for each
//! event: shell commands, or commands sent over the `i3` IPC socket.
//!
//! Displacements and thresholds are measured in ticks of 1/100 of the input
//! device's unit, so that the geometry of classification is exact integer
//! arithmetic.

pub mod actions;
pub mod controllers;
pub mod events;
pub mod settings;
