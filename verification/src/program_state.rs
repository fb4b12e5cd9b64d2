//! What the operating system says of a live process, read into a state.

use vstd::prelude::*;
use crate::program::TMProgram;

verus! {

/// The state of a live process.
#[derive(Debug, Clone, Copy, PartialEq, Eq, Structural)]
pub enum ProgramState {
    /// Running or runnable.
    Running,
    /// In an interruptible sleep.
    Sleeping,
    /// In an uninterruptible sleep, mostly waiting for a device.
    DiskSleep,
    /// Terminated and not yet reaped.
    Zombie,
    /// Stopped by a signal or by a tracer.
    TracingStop,
    /// Dead.
    Dead,
    /// Being created.
    ProcessCreated,
    /// A state that the supervisor does not know.
    Unknown,
}

/// Why the state of a process was not determined.
#[derive(Debug, Clone, Copy, PartialEq, Eq, Structural)]
pub enum StateError {
    /// The metadata names no state.
    UnknownState,
    /// The entry has no process.
    ProgramNotLaunched,
    /// The metadata could not be read.
    Unreadable,
}

/// The metadata of a live process, as it was read from the operating system.
#[derive(Debug, Clone, PartialEq, Eq)]
pub enum ProcMetadata {
    /// The bytes of the status pseudo-file of the process.
    StatusFile(Vec<u8>),
    /// The state field of the structured process information.
    BsdStatus(u32),
    /// Nothing: the source could not be read.
    Unreadable,
}

/// The byte that ends a line.
pub const LINE_FEED: u8 = 10;

/// The state letter `R`.
pub const LETTER_RUNNING: u8 = 82;

/// The state letter `S`.
pub const LETTER_SLEEPING: u8 = 83;

/// The state letter `D`.
pub const LETTER_DISK_SLEEP: u8 = 68;

/// The state letter `Z`.
pub const LETTER_ZOMBIE: u8 = 90;

/// The state letter `T`.
pub const LETTER_TRACING_STOP: u8 = 84;

/// The state letter `X`.
pub const LETTER_DEAD: u8 = 88;

/// The line of the status pseudo-file that holds the state, counted from zero.
pub const STATE_LINE: usize = 2;

/// The place of the state letter in its line, counted from zero.
pub const STATE_COLUMN: usize = 7;

/// Where the line that begins at `from` ends: the place of the first line feed
/// at or after `from`, or the end of the text.
pub open spec fn line_end(text: Seq<u8>, from: int) -> int
    decreases text.len() - from,
{
    if from >= text.len() {
        text.len() as int
    } else if text[from] == LINE_FEED {
        from
    } else {
        line_end(text, from + 1)
    }
}

/// Where line `n` begins, counted from zero. A line feed ends a line; what
/// follows the last line feed is a line only if it is not empty.
pub open spec fn line_start(text: Seq<u8>, n: nat) -> Option<int>
    decreases n,
{
    if n == 0 {
        if text.len() > 0 {
            Some(0)
        } else {
            None
        }
    } else {
        match line_start(text, (n - 1) as nat) {
            None => None,
            Some(from) => if line_end(text, from) + 1 < text.len() {
                Some(line_end(text, from) + 1)
            } else {
                None
            },
        }
    }
}

/// The state letter of a status pseudo-file: the byte at `STATE_COLUMN` of
/// line `STATE_LINE`, if the text has that line and the line is that long.
pub open spec fn state_letter(text: Seq<u8>) -> Option<u8> {
    match line_start(text, STATE_LINE as nat) {
        None => None,
        Some(from) => if from + STATE_COLUMN < line_end(text, from) {
            Some(text[from + STATE_COLUMN])
        } else {
            None
        },
    }
}

/// A line ends at the first line feed at or after its beginning, or at the
/// end of the text where no line feed follows.
pub proof fn line_end_is_first_line_feed(text: Seq<u8>, from: int)
    requires
        0 <= from <= text.len(),
    ensures
        from <= line_end(text, from) <= text.len(),
        forall|k: int| from <= k < line_end(text, from) ==> text[k] != LINE_FEED,
        line_end(text, from) < text.len() ==> text[line_end(text, from)] == LINE_FEED,
    decreases text.len() - from,
{
    if from < text.len() && text[from] != LINE_FEED {
        line_end_is_first_line_feed(text, from + 1);
    }
}

fn find_line_end(text: &[u8], from: usize) -> (end: usize)
    requires
        from <= text@.len(),
    ensures
        end == line_end(text@, from as int),
        from <= end <= text@.len(),
{
    let mut end = from;
    while end < text.len() && text[end] != LINE_FEED
        invariant
            from <= end <= text@.len(),
            line_end(text@, from as int) == line_end(text@, end as int),
        decreases text@.len() - end,
    {
        end += 1;
    }
    end
}

fn find_line_start(text: &[u8], n: usize) -> (start: Option<usize>)
    ensures
        match start {
            Some(from) => line_start(text@, n as nat) == Some(from as int) && from < text@.len(),
            None => line_start(text@, n as nat) is None,
        },
{
    if text.len() == 0 {
        proof {
            no_line_in_empty_text(text@, n as nat);
        }
        return None;
    }
    let mut from: usize = 0;
    let mut line: usize = 0;
    while line < n
        invariant
            line <= n,
            from < text@.len(),
            line_start(text@, line as nat) == Some(from as int),
        decreases n - line,
    {
        let end = find_line_end(text, from);
        if text.len() - end > 1 {
            from = end + 1;
            line += 1;
        } else {
            proof {
                no_line_after_last(text@, (line + 1) as nat, n as nat);
            }
            return None;
        }
    }
    Some(from)
}

proof fn no_line_in_empty_text(text: Seq<u8>, n: nat)
    requires
        text.len() == 0,
    ensures
        line_start(text, n) is None,
    decreases n,
{
    if n > 0 {
        no_line_in_empty_text(text, (n - 1) as nat);
    }
}

proof fn no_line_after_last(text: Seq<u8>, m: nat, n: nat)
    requires
        line_start(text, m) is None,
        m <= n,
    ensures
        line_start(text, n) is None,
    decreases n,
{
    if m < n {
        no_line_after_last(text, m, (n - 1) as nat);
    }
}

impl ProgramState {
    /// The state that a state letter of the status pseudo-file stands for.
    /// A letter that is not known stands for `Unknown`.
    pub open spec fn of_letter(letter: u8) -> ProgramState {
        if letter == LETTER_RUNNING {
            ProgramState::Running
        } else if letter == LETTER_SLEEPING {
            ProgramState::Sleeping
        } else if letter == LETTER_DISK_SLEEP {
            ProgramState::DiskSleep
        } else if letter == LETTER_ZOMBIE {
            ProgramState::Zombie
        } else if letter == LETTER_TRACING_STOP {
            ProgramState::TracingStop
        } else if letter == LETTER_DEAD {
            ProgramState::Dead
        } else {
            ProgramState::Unknown
        }
    }

    /// The state that a state field of the structured process information
    /// stands for. A number that is not known stands for `Unknown`.
    pub open spec fn of_bsd_status(value: u32) -> ProgramState {
        if value == 1 {
            ProgramState::ProcessCreated
        } else if value == 2 {
            ProgramState::Running
        } else if value == 3 {
            ProgramState::Sleeping
        } else if value == 4 {
            ProgramState::Zombie
        } else {
            ProgramState::Unknown
        }
    }

    /// Reads a state letter of the status pseudo-file.
    pub fn from_letter(letter: u8) -> (r: ProgramState)
        ensures
            r == ProgramState::of_letter(letter),
    {
        if letter == LETTER_RUNNING {
            ProgramState::Running
        } else if letter == LETTER_SLEEPING {
            ProgramState::Sleeping
        } else if letter == LETTER_DISK_SLEEP {
            ProgramState::DiskSleep
        } else if letter == LETTER_ZOMBIE {
            ProgramState::Zombie
        } else if letter == LETTER_TRACING_STOP {
            ProgramState::TracingStop
        } else if letter == LETTER_DEAD {
            ProgramState::Dead
        } else {
            ProgramState::Unknown
        }
    }

    /// Reads a state field of the structured process information.
    pub fn from_bsd_status(value: u32) -> (r: ProgramState)
        ensures
            r == ProgramState::of_bsd_status(value),
    {
        match value {
            1 => ProgramState::ProcessCreated,
            2 => ProgramState::Running,
            3 => ProgramState::Sleeping,
            4 => ProgramState::Zombie,
            _ => ProgramState::Unknown,
        }
    }

    /// The name of the state, as it is shown to the operator.
    pub open spec fn label(self) -> Seq<char> {
        match self {
            ProgramState::Running => "Running"@,
            ProgramState::Sleeping => "Sleeping"@,
            ProgramState::DiskSleep => "DiskSleep"@,
            ProgramState::Zombie => "Zombie"@,
            ProgramState::TracingStop => "TracingStop"@,
            ProgramState::Dead => "Dead"@,
            ProgramState::ProcessCreated => "ProcessCreated"@,
            ProgramState::Unknown => "Unknown"@,
        }
    }

    /// The name of the state, as it is shown to the operator.
    pub fn name(&self) -> (r: &'static str)
        ensures
            r@ == self.label(),
    {
        match self {
            ProgramState::Running => "Running",
            ProgramState::Sleeping => "Sleeping",
            ProgramState::DiskSleep => "DiskSleep",
            ProgramState::Zombie => "Zombie",
            ProgramState::TracingStop => "TracingStop",
            ProgramState::Dead => "Dead",
            ProgramState::ProcessCreated => "ProcessCreated",
            ProgramState::Unknown => "Unknown",
        }
    }
}

impl ProcMetadata {
    /// The state that the metadata gives.
    pub open spec fn reading(self) -> Result<ProgramState, StateError> {
        match self {
            ProcMetadata::StatusFile(text) => match state_letter(text@) {
                Some(letter) => Ok(ProgramState::of_letter(letter)),
                None => Err(StateError::UnknownState),
            },
            ProcMetadata::BsdStatus(value) => Ok(ProgramState::of_bsd_status(value)),
            ProcMetadata::Unreadable => Err(StateError::Unreadable),
        }
    }

    /// Reads the state out of the metadata. It fails with `UnknownState` where
    /// a status pseudo-file holds no state letter, and with `Unreadable` where
    /// there is no metadata.
    pub fn read(&self) -> (r: Result<ProgramState, StateError>)
        ensures
            r == self.reading(),
    {
        match self {
            ProcMetadata::StatusFile(text) => match find_state_letter(text.as_slice()) {
                Some(letter) => Ok(ProgramState::from_letter(letter)),
                None => Err(StateError::UnknownState),
            },
            ProcMetadata::BsdStatus(value) => Ok(ProgramState::from_bsd_status(*value)),
            ProcMetadata::Unreadable => Err(StateError::Unreadable),
        }
    }
}

/// Finds the state letter in the bytes of a status pseudo-file.
pub fn find_state_letter(text: &[u8]) -> (r: Option<u8>)
    ensures
        r == state_letter(text@),
{
    match find_line_start(text, STATE_LINE) {
        None => None,
        Some(from) => {
            let end = find_line_end(text, from);
            if end - from > STATE_COLUMN {
                Some(text[from + STATE_COLUMN])
            } else {
                None
            }
        },
    }
}

impl StateError {
    /// The name of the error, as it is shown to the operator.
    pub open spec fn label(self) -> Seq<char> {
        match self {
            StateError::UnknownState => "UnknownState"@,
            StateError::ProgramNotLaunched => "ProgramNotLaunched"@,
            StateError::Unreadable => "Unreadable"@,
        }
    }

    /// The name of the error, as it is shown to the operator.
    pub fn name(&self) -> (r: &'static str)
        ensures
            r@ == self.label(),
    {
        match self {
            StateError::UnknownState => "UnknownState",
            StateError::ProgramNotLaunched => "ProgramNotLaunched",
            StateError::Unreadable => "Unreadable",
        }
    }
}

impl TMProgram {
    /// The state of the entry's process under the given metadata.
    pub open spec fn state_of(self, metadata: ProcMetadata) -> Result<ProgramState, StateError> {
        if self.child is None {
            Err(StateError::ProgramNotLaunched)
        } else {
            metadata.reading()
        }
    }

    /// The state of the entry's process, read out of the metadata that the
    /// operating system gave for it. An entry without a process has no state.
    pub fn state(&self, metadata: &ProcMetadata) -> (r: Result<ProgramState, StateError>)
        ensures
            r == self.state_of(*metadata),
    {
        match self.child {
            None => Err(StateError::ProgramNotLaunched),
            Some(_) => metadata.read(),
        }
    }
}

} // verus!
