//! The status of an entry, derived anew on every query from what was just
//! observed of its process.

use vstd::prelude::*;
use vstd::string::*;
use crate::program::TMProgram;
use crate::program_state::{ProcMetadata, ProgramState, StateError};
use crate::text::{decimal, push_decimal};

verus! {

/// The status of an entry.
#[derive(Debug, Clone, Copy, PartialEq, Eq, Structural)]
pub enum ProgramStatus {
    /// The process has exited with this code.
    Code(i32),
    /// This signal has ended the process.
    Signal(i32),
    /// The process is alive, in this state.
    Running(ProgramState),
    /// The entry has no process.
    Nothing,
}

/// Why the status of an entry was not determined.
#[derive(Debug, Clone, Copy, PartialEq, Eq, Structural)]
pub enum StatusError {
    /// Asking whether the process has exited failed.
    TryWaitFailed,
    /// The process is alive and its state was not determined.
    StateError,
    /// The process has exited and neither a code nor a signal is known.
    RuntimeError,
}

/// What one look at a process showed.
#[derive(Debug, Clone, PartialEq, Eq)]
pub enum Probe {
    /// Asking whether the process has exited failed.
    WaitFailed,
    /// The process has exited, with a code or by a signal.
    Exited {
        /// The exit code, where the process ended by itself.
        code: Option<i32>,
        /// The signal, where one ended the process.
        signal: Option<i32>,
    },
    /// The process is alive; its metadata is attached.
    Alive(ProcMetadata),
}

impl From<StateError> for StatusError {
    fn from(_e: StateError) -> (r: StatusError) {
        StatusError::StateError
    }
}

impl vstd::std_specs::convert::FromSpecImpl<StateError> for StatusError {
    open spec fn obeys_from_spec() -> bool {
        true
    }

    open spec fn from_spec(_e: StateError) -> StatusError {
        StatusError::StateError
    }
}

impl StatusError {
    /// The name of the error, as it is shown to the operator.
    pub open spec fn label(self) -> Seq<char> {
        match self {
            StatusError::TryWaitFailed => "TryWaitFailed"@,
            StatusError::StateError => "StateError"@,
            StatusError::RuntimeError => "RuntimeError"@,
        }
    }

    /// The name of the error, as it is shown to the operator.
    pub fn name(&self) -> (r: &'static str)
        ensures
            r@ == self.label(),
    {
        match self {
            StatusError::TryWaitFailed => "TryWaitFailed",
            StatusError::StateError => "StateError",
            StatusError::RuntimeError => "RuntimeError",
        }
    }
}

impl ProgramStatus {
    /// Whether the status says that the process has exited.
    pub open spec fn is_exit(self) -> bool {
        self is Code || self is Signal
    }

    /// The exit code of a status that says that the process has exited; `None`
    /// where a signal ended it.
    pub open spec fn exit_code(self) -> Option<i32> {
        match self {
            ProgramStatus::Code(code) => Some(code),
            _ => None,
        }
    }

    /// How the status is shown to the operator.
    pub open spec fn rendering(self) -> Seq<char> {
        match self {
            ProgramStatus::Code(code) => "exited with code: "@ + decimal(code as int),
            ProgramStatus::Signal(signal) => "terminated by signal: "@ + decimal(signal as int),
            ProgramStatus::Running(state) => state.label(),
            ProgramStatus::Nothing => "not launched"@,
        }
    }

    /// Writes the status as it is shown to the operator.
    pub fn render(&self) -> (r: String)
        ensures
            r@ == self.rendering(),
    {
        match self {
            ProgramStatus::Code(code) => {
                let mut out = "exited with code: ".to_owned();
                push_decimal(&mut out, *code as i64);
                out
            },
            ProgramStatus::Signal(signal) => {
                let mut out = "terminated by signal: ".to_owned();
                push_decimal(&mut out, *signal as i64);
                out
            },
            ProgramStatus::Running(state) => state.name().to_owned(),
            ProgramStatus::Nothing => "not launched".to_owned(),
        }
    }
}

impl Probe {
    /// The status that the look gives for a process.
    pub open spec fn reading(self) -> Result<ProgramStatus, StatusError> {
        match self {
            Probe::WaitFailed => Err(StatusError::TryWaitFailed),
            Probe::Exited { code: Some(code), signal: _ } => Ok(ProgramStatus::Code(code)),
            Probe::Exited { code: None, signal: Some(signal) } => Ok(ProgramStatus::Signal(signal)),
            Probe::Exited { code: None, signal: None } => Err(StatusError::RuntimeError),
            Probe::Alive(metadata) => match metadata.reading() {
                Ok(state) => Ok(ProgramStatus::Running(state)),
                Err(_) => Err(StatusError::StateError),
            },
        }
    }
}

impl TMProgram {
    /// The status of the entry under what a look at its process showed. An
    /// entry without a process has the status `Nothing`, whatever was seen.
    pub open spec fn status_of(self, probe: Probe) -> Result<ProgramStatus, StatusError> {
        if self.child is None {
            Ok(ProgramStatus::Nothing)
        } else {
            probe.reading()
        }
    }

    /// The status of the entry, derived from what a look at its process just
    /// showed. The status is `Nothing` exactly for an entry without a process.
    pub fn status(&self, probe: &Probe) -> (r: Result<ProgramStatus, StatusError>)
        ensures
            r == self.status_of(*probe),
            (r == Ok::<ProgramStatus, StatusError>(ProgramStatus::Nothing)) <==> self.child is None,
    {
        if self.child.is_none() {
            return Ok(ProgramStatus::Nothing);
        }
        match probe {
            Probe::WaitFailed => Err(StatusError::TryWaitFailed),
            Probe::Exited { code, signal } => match code {
                Some(code) => Ok(ProgramStatus::Code(*code)),
                None => match signal {
                    Some(signal) => Ok(ProgramStatus::Signal(*signal)),
                    None => Err(StatusError::RuntimeError),
                },
            },
            Probe::Alive(metadata) => match self.state(metadata) {
                Ok(state) => Ok(ProgramStatus::Running(state)),
                Err(e) => Err(StatusError::from(e)),
            },
        }
    }
}

} // verus!
