//! The dispatcher: what a command does, step by step.
//!
//! A command is turned into a script of [`steps::Step`]s. A
//! [`handler::Session`] works the script off: it hands out the action of the
//! first step, takes the event that reports on it, and goes on to the next.
//! A listing adds the steps for the records it brought.
pub mod expand;
pub mod handler;
pub mod laws;
pub mod scripts;
pub mod steps;

pub use handler::{handle_arguments, manage_images, manage_machines, Action, Event, Session};
