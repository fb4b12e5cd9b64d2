//! The signals that a configuration can name for stopping a program.

use vstd::prelude::*;
use vstd::string::*;
use crate::text::same_text;

verus! {

/// A signal that asks a process to stop, or that acts on it in its place.
#[derive(Debug, Clone, Copy, PartialEq, Eq, Structural)]
pub enum StopSignal {
    /// Hang-up.
    Hup,
    /// Interrupt.
    Int,
    /// Quit.
    Quit,
    /// Abort.
    Abrt,
    /// Kill; it cannot be caught.
    Kill,
    /// First signal left to the program.
    Usr1,
    /// Second signal left to the program.
    Usr2,
    /// Alarm clock.
    Alrm,
    /// Termination.
    Term,
    /// Continue.
    Cont,
    /// Stop; it cannot be caught.
    Stop,
}

/// A name without the letters `SIG` in front of it, where it begins with them.
/// They are taken off once.
pub open spec fn bare_name(name: Seq<char>) -> Seq<char> {
    if name.len() >= 3 && name.subrange(0, 3) == "SIG"@ {
        name.subrange(3, name.len() as int)
    } else {
        name
    }
}

/// The signal that a bare name stands for, in capital letters.
pub open spec fn signal_named(bare: Seq<char>) -> Option<StopSignal> {
    if bare == "HUP"@ {
        Some(StopSignal::Hup)
    } else if bare == "INT"@ {
        Some(StopSignal::Int)
    } else if bare == "QUIT"@ {
        Some(StopSignal::Quit)
    } else if bare == "ABRT"@ {
        Some(StopSignal::Abrt)
    } else if bare == "KILL"@ {
        Some(StopSignal::Kill)
    } else if bare == "USR1"@ {
        Some(StopSignal::Usr1)
    } else if bare == "USR2"@ {
        Some(StopSignal::Usr2)
    } else if bare == "ALRM"@ {
        Some(StopSignal::Alrm)
    } else if bare == "TERM"@ {
        Some(StopSignal::Term)
    } else if bare == "CONT"@ {
        Some(StopSignal::Cont)
    } else if bare == "STOP"@ {
        Some(StopSignal::Stop)
    } else {
        None
    }
}

/// The signal that a configured name stands for: the name of the signal, with
/// `SIG` in front of it or without. Any other name stands for none.
pub open spec fn stop_signal_of(name: Seq<char>) -> Option<StopSignal> {
    signal_named(bare_name(name))
}

/// Reads the name of a stop signal as a configuration gives it.
pub fn stop_signal(name: &str) -> (r: Option<StopSignal>)
    ensures
        r == stop_signal_of(name@),
{
    let length = name.unicode_len();
    let bare = if length >= 3 && same_text(name.substring_char(0, 3), "SIG") {
        name.substring_char(3, length)
    } else {
        name
    };
    assert(bare@ == bare_name(name@));
    if same_text(bare, "HUP") {
        Some(StopSignal::Hup)
    } else if same_text(bare, "INT") {
        Some(StopSignal::Int)
    } else if same_text(bare, "QUIT") {
        Some(StopSignal::Quit)
    } else if same_text(bare, "ABRT") {
        Some(StopSignal::Abrt)
    } else if same_text(bare, "KILL") {
        Some(StopSignal::Kill)
    } else if same_text(bare, "USR1") {
        Some(StopSignal::Usr1)
    } else if same_text(bare, "USR2") {
        Some(StopSignal::Usr2)
    } else if same_text(bare, "ALRM") {
        Some(StopSignal::Alrm)
    } else if same_text(bare, "TERM") {
        Some(StopSignal::Term)
    } else if same_text(bare, "CONT") {
        Some(StopSignal::Cont)
    } else if same_text(bare, "STOP") {
        Some(StopSignal::Stop)
    } else {
        None
    }
}

} // verus!
