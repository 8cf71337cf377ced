//! Last-resort error reporting for Discord bots.
//!
//! An [`ErrorHandler`] holds up to three sinks (a channel, a webhook and a
//! file). Reporting an error is a small state machine: [`ErrorHandler::report`]
//! starts a [`Report`], whose [`Report::action`] names the next delivery to
//! perform and whose [`Report::advance`] takes what that delivery returned.
//! The last action always prints the accumulated message to `stderr`.

pub mod ids;
pub mod model;
pub mod reporter;
pub mod laws;

pub use model::{Attempt, Outcome, Step, DEFAULT_ERROR_MESSAGE};
pub use reporter::{Action, ErrorHandler, Report};
