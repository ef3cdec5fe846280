//! A terminal-oriented provisioning runner, verified with Verus.
//!
//! The crate models an ordered list of declarative steps (shell scripts,
//! file edits, git configuration, interactive package selection) together
//! with the state machines that execute them: a per-step pipeline engine,
//! batch runners for the two interactive step kinds, and the dashboard
//! overlay state machine that multiplexes keyboard input.
//!
//! Shell commands and file writes are outside work: the library never
//! performs them.  Every machine hands its caller the next action to carry
//! out (a command line to run, a file to append to) and consumes the
//! outcome as a plain event, so all decisions, status transitions and log
//! text are verified for every possible outcome of the outside work.

pub mod executor;
pub mod model;
pub mod text;
pub mod tui;
