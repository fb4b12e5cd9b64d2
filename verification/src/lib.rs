//! A process supervisor's decision core: the supervised-program records, the
//! typed reading of what the operating system reports about a process, the
//! restart policy and the operator's command surface.
//!
//! The library never touches a process itself. Every operation takes what was
//! observed of the outside world as plain values and answers with the next
//! state and the action to perform.
//!
//! - [`config`]: the configuration and the registry that startup builds from it.
//! - [`program`]: one entry of the registry and the restart policy.
//! - [`program_state`], [`program_status`]: the state and the status of a process.
//! - [`registry`]: the entries together, and starting and stopping them.
//! - [`monitor`]: the sweep that retires exited processes.
//! - [`reload`]: taking in a new configuration.
//! - [`signal`]: the signals that stop a program.
//! - [`command`], [`command_line`]: the operator's commands.
//! - [`laws`]: what holds of all of them together.
//! - [`text`]: comparing and writing text.

pub mod command;
pub mod command_line;
pub mod config;
pub mod laws;
pub mod monitor;
pub mod program;
pub mod program_state;
pub mod program_status;
pub mod registry;
pub mod reload;
pub mod signal;
pub mod text;
