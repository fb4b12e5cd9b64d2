//! One supervised program: its configuration, the process that currently runs
//! it, and the bookkeeping of its restarts.

use vstd::prelude::*;
use crate::command::CommandError;
use crate::config::{AutoRestart, TMProgramConfig};

verus! {

/// What the supervisor holds of a live process.
#[derive(Debug, Clone, Copy, PartialEq, Eq, Structural)]
pub struct ProcessHandle {
    /// The process identifier that the operating system gave.
    pub pid: u32,
    /// The number of this launch among all launches of the registry. It tells
    /// two processes apart even where the operating system gave a process
    /// identifier a second time.
    pub serial: u64,
}

/// An entry of the registry.
#[derive(Debug, Clone, PartialEq, Eq)]
pub struct TMProgram {
    /// The name under which the program is declared. It never changes.
    pub name: String,
    /// The configuration that currently governs the program.
    pub config: TMProgramConfig,
    /// The live process, present while the supervisor takes the program to be running.
    pub child: Option<ProcessHandle>,
    /// Restarts made by the restart policy since the operator last launched the program.
    pub restart_count: u32,
    /// Set when the restart policy has given the program up.
    pub failed: bool,
    /// Set while a stop that the operator asked for is under way.
    pub stopping: bool,
}

impl TMProgram {
    /// An entry is well formed when it is being stopped only while it has a
    /// process, and given up only while it has none.
    pub open spec fn wf(self) -> bool {
        &&& self.stopping ==> self.child is Some
        &&& self.failed ==> self.child is None
    }

    /// The entry of a program that was never launched.
    pub open spec fn fresh(name: String, config: TMProgramConfig) -> TMProgram {
        TMProgram { name, config, child: None, restart_count: 0, failed: false, stopping: false }
    }

    /// A new entry, without a process.
    pub fn new(name: String, config: TMProgramConfig) -> (r: TMProgram)
        ensures
            r == TMProgram::fresh(name, config),
            r.wf(),
    {
        TMProgram { name, config, child: None, restart_count: 0, failed: false, stopping: false }
    }

    /// The entry once `handle` has become its process.
    pub open spec fn with_child(self, handle: ProcessHandle) -> TMProgram {
        TMProgram { child: Some(handle), failed: false, ..self }
    }

    /// Records the outcome of starting the program: `spawned` is the new
    /// process, or `None` where the start failed. A failed start leaves the
    /// entry as it was. No counter is reset.
    pub fn launch(&mut self, spawned: Option<ProcessHandle>) -> (r: Result<(), CommandError>)
        requires
            old(self).child is None,
        ensures
            match spawned {
                Some(handle) => r == Ok::<(), CommandError>(()) && *final(self) == old(self).with_child(
                    handle,
                ),
                None => r == Err::<(), CommandError>(CommandError::RuntimeError) && *final(self)
                    == *old(self),
            },
    {
        match spawned {
            Some(handle) => {
                self.child = Some(handle);
                self.failed = false;
                Ok(())
            },
            None => Err(CommandError::RuntimeError),
        }
    }

    /// Whether an exit counts as unexpected. `code` is the exit code, or `None`
    /// where a signal ended the process; such an exit is never expected.
    pub open spec fn unexpected(self, code: Option<i32>) -> bool {
        match code {
            Some(c) => !self.config.expects(c),
            None => true,
        }
    }

    /// Whether the restart policy starts the program again after an exit.
    pub open spec fn relaunches(self, code: Option<i32>) -> bool {
        match self.config.autorestart {
            AutoRestart::Never => false,
            AutoRestart::Always => true,
            AutoRestart::UnExpected => self.unexpected(code) && self.restart_count
                < self.config.number_restart,
        }
    }

    /// Whether the restart policy gives the program up after an exit: the exit
    /// was unexpected and the restarts are used up.
    pub open spec fn gives_up(self, code: Option<i32>) -> bool {
        &&& self.config.autorestart is UnExpected
        &&& self.unexpected(code)
        &&& self.restart_count >= self.config.number_restart
    }

    /// The entry once its exit has been seen: the process is gone, a restart
    /// after an unexpected exit is counted, and a program whose restarts are
    /// used up is marked as given up.
    pub open spec fn after_exit(self, code: Option<i32>) -> TMProgram {
        TMProgram {
            child: None,
            stopping: false,
            restart_count: if self.config.autorestart is UnExpected && self.relaunches(code) {
                (self.restart_count + 1) as u32
            } else {
                self.restart_count
            },
            failed: self.failed || self.gives_up(code),
            ..self
        }
    }

    /// Records that the process has exited and applies the restart policy.
    /// `code` is the exit code, or `None` where a signal ended the process.
    /// Returns whether the program is to be started again.
    pub fn evaluate_auto_restart(&mut self, code: Option<i32>) -> (relaunch: bool)
        ensures
            *final(self) == old(self).after_exit(code),
            relaunch == old(self).relaunches(code),
            final(self).wf(),
    {
        self.child = None;
        self.stopping = false;
        match self.config.autorestart {
            AutoRestart::Never => false,
            AutoRestart::Always => true,
            AutoRestart::UnExpected => {
                let unexpected = match code {
                    Some(c) => !self.config.is_expected(c),
                    None => true,
                };
                if !unexpected {
                    false
                } else if self.restart_count < self.config.number_restart {
                    self.restart_count = self.restart_count + 1;
                    true
                } else {
                    self.failed = true;
                    false
                }
            },
        }
    }
}

} // verus!
