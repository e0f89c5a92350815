//! Decision logic of the Hermes desktop shell.
//!
//! The shell hosts a window, starts the bundled backend server as a child
//! process, forwards what that process prints to the diagnostic log, and
//! stops it when the window or the application goes away. Everything the
//! shell decides is here, as functions from plain values to plain values;
//! the surrounding program performs the effects.

pub mod config;
pub mod devtools;
pub mod lifecycle;
pub mod pump;
pub mod sidecar;
pub mod text;
