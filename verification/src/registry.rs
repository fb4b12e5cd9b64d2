//! The registry: the supervised programs in a fixed order, and the operations
//! that start, stop and watch them.
//!
//! The registry performs no operation on a process. Where a process has to be
//! started or stopped it answers with an [`Action`]; the caller performs it and
//! reports the outcome to the operation that the action names.

use vstd::prelude::*;
use crate::command::CommandError;
use crate::program::{ProcessHandle, TMProgram};
use crate::signal::{stop_signal, stop_signal_of, StopSignal};

verus! {

/// What the caller has to do next.
#[derive(Debug, Clone, PartialEq, Eq)]
pub enum Action {
    /// Nothing.
    Done,
    /// Stop the process behind `handle`: send it `signal`, poll its exit and
    /// follow [`stop_step`] with `wait` as the limit, then report to
    /// [`Registry::stopped`], with `relaunch` as it stands here. Where the
    /// signal could not be sent, or there is none to send, report at once that
    /// it was not delivered.
    Stop {
        /// The place of the entry.
        index: usize,
        /// The process to stop.
        handle: ProcessHandle,
        /// The signal that asks the process to stop; `None` where the
        /// configuration names none that is known.
        signal: Option<StopSignal>,
        /// The seconds granted to the process before it is killed.
        wait: u32,
        /// Whether the program is started again once the process is gone.
        relaunch: bool,
    },
    /// Start the program of the entry at `index` as its configuration says,
    /// then report to [`Registry::launched`].
    Spawn {
        /// The place of the entry.
        index: usize,
    },
}

/// What to do with a process that was asked to stop.
#[derive(Debug, Clone, Copy, PartialEq, Eq, Structural)]
pub enum StopStep {
    /// The process has exited: the stop is complete.
    Finished,
    /// Look again a moment later.
    Wait,
    /// The time is up: kill the process, then the stop is complete.
    Kill,
}

/// The next step of a stop, `waited` seconds after the stop signal was sent to
/// a process that is granted `wait` seconds: a process that has exited needs
/// nothing more, one that is still alive is waited for until the time is up,
/// and killed then.
pub fn stop_step(wait: u32, waited: u32, exited: bool) -> (step: StopStep)
    ensures
        step == if exited {
            StopStep::Finished
        } else if waited >= wait {
            StopStep::Kill
        } else {
            StopStep::Wait
        },
{
    if exited {
        StopStep::Finished
    } else if waited >= wait {
        StopStep::Kill
    } else {
        StopStep::Wait
    }
}

/// The supervised programs, in the order in which they are shown to the
/// operator. No operation removes, renames or reorders an entry, so that the
/// place of an entry names it for as long as the registry lives.
#[derive(Debug)]
pub struct Registry {
    pub(crate) programs: Vec<TMProgram>,
    pub(crate) issued: u64,
}

/// The registry as a value: its entries in order, and the number of
/// processes that it has taken in so far.
pub struct RegistryView {
    /// The entries, in order.
    pub entries: Seq<TMProgram>,
    /// The number of processes taken in so far: the serial number of the next handle.
    pub issued: u64,
}

impl View for Registry {
    type V = RegistryView;

    open(crate) spec fn view(&self) -> RegistryView {
        RegistryView { entries: self.programs@, issued: self.issued }
    }
}

impl TMProgram {
    /// The entry once a stop of its process was begun; an entry without a
    /// process is not touched.
    pub open spec fn being_stopped(self) -> TMProgram {
        if self.child is Some {
            TMProgram { stopping: true, ..self }
        } else {
            self
        }
    }

    /// The action that stops the process of the entry, which stands at `index`.
    pub open spec fn stop_action(self, index: int, relaunch: bool) -> Action
        recommends
            self.child is Some,
    {
        Action::Stop {
            index: index as usize,
            handle: self.child.unwrap(),
            signal: stop_signal_of(self.config.stopsignal@),
            wait: self.config.stoptime,
            relaunch,
        }
    }
}

/// The actions that stop the processes of the first `n` entries, in the order
/// of the entries.
pub open spec fn shutdown_actions(entries: Seq<TMProgram>, n: int) -> Seq<Action>
    decreases n,
{
    if n <= 0 {
        Seq::empty()
    } else {
        let before = shutdown_actions(entries, n - 1);
        if entries[n - 1].child is Some {
            before.push(entries[n - 1].stop_action(n - 1, false))
        } else {
            before
        }
    }
}

impl RegistryView {
    /// Whether `index` names an entry.
    pub open spec fn has(self, index: int) -> bool {
        0 <= index < self.entries.len()
    }

    /// A registry is well formed when each entry is, no name occurs twice, and
    /// the processes of its entries are distinct launches that the registry
    /// has counted.
    pub open spec fn wf(self) -> bool {
        &&& forall|i: int| self.has(i) ==> (#[trigger] self.entries[i]).wf()
        &&& forall|i: int|
            self.has(i) && self.entries[i].child is Some ==> (#[trigger] self.entries[i]).child.unwrap().serial
                < self.issued
        &&& forall|i: int, j: int|
            0 <= i < j < self.entries.len() && self.entries[i].child is Some && self.entries[j].child is Some
                ==> (#[trigger] self.entries[i]).child.unwrap().serial != (
            #[trigger] self.entries[j]).child.unwrap().serial
        &&& forall|i: int, j: int|
            0 <= i < j < self.entries.len() ==> (#[trigger] self.entries[i]).name@ != (
            #[trigger] self.entries[j]).name@
    }

    /// The registry with the entry at `index` replaced.
    pub open spec fn with_entry(self, index: int, entry: TMProgram) -> RegistryView {
        RegistryView { entries: self.entries.update(index, entry), ..self }
    }

    /// The registry after the outcome of a start was reported for the entry at
    /// `index`, and what the report returns. `pid` is the process identifier of
    /// the new process, or `None` where the start failed.
    pub open spec fn launched(self, index: int, pid: Option<u32>) -> (RegistryView, Result<(), CommandError>) {
        if !self.has(index) {
            (self, Err(CommandError::WrongIndex))
        } else if self.entries[index].child is Some || pid is None || self.issued == u64::MAX {
            (self, Err(CommandError::RuntimeError))
        } else {
            let handle = ProcessHandle { pid: pid.unwrap(), serial: self.issued };
            (
                RegistryView {
                    entries: self.entries.update(index, self.entries[index].with_child(handle)),
                    issued: (self.issued + 1) as u64,
                },
                Ok(()),
            )
        }
    }

    /// The registry after the operator asked to start the entry at `index`,
    /// and the action that follows.
    pub open spec fn launch_planned(self, index: int) -> (RegistryView, Result<Action, CommandError>) {
        if !self.has(index) {
            (self, Err(CommandError::WrongIndex))
        } else if self.entries[index].child is Some {
            (self, Ok(Action::Done))
        } else {
            (
                self.with_entry(
                    index,
                    TMProgram { restart_count: 0, failed: false, ..self.entries[index] },
                ),
                Ok(Action::Spawn { index: index as usize }),
            )
        }
    }

    /// The registry after a stop of the entry at `index` was begun, and the
    /// action that follows.
    pub open spec fn stop_begun(self, index: int, relaunch: bool) -> (
        RegistryView,
        Result<Action, CommandError>,
    ) {
        if !self.has(index) {
            (self, Err(CommandError::WrongIndex))
        } else if self.entries[index].child is None {
            (self, Err(CommandError::ProgramNotLaunched))
        } else {
            (
                self.with_entry(index, self.entries[index].being_stopped()),
                Ok(self.entries[index].stop_action(index, relaunch)),
            )
        }
    }

    /// The registry after the supervisor began to shut down: every entry that
    /// has a process is being stopped.
    pub open spec fn shut_down(self) -> RegistryView {
        RegistryView {
            entries: Seq::new(self.entries.len(), |i: int| self.entries[i].being_stopped()),
            ..self
        }
    }

    /// The registry after the end of a stop was reported, and the action that
    /// follows. `delivered` says whether the stop signal could be sent.
    pub open spec fn stopped(self, index: int, handle: ProcessHandle, delivered: bool, relaunch: bool) -> (
        RegistryView,
        Result<Action, CommandError>,
    ) {
        if !self.has(index) {
            (self, Err(CommandError::WrongIndex))
        } else {
            let entry = self.entries[index];
            if entry.child != Some(handle) {
                (self, Err(CommandError::ProgramNotLaunched))
            } else if !delivered {
                (
                    self.with_entry(index, TMProgram { stopping: false, ..entry }),
                    Err(CommandError::RuntimeError),
                )
            } else {
                let cleared = self.with_entry(index, TMProgram { child: None, stopping: false, ..entry });
                if relaunch {
                    cleared.launch_planned(index)
                } else {
                    (cleared, Ok(Action::Done))
                }
            }
        }
    }
}

impl Registry {
    /// A registry without entries.
    pub fn new() -> (r: Registry)
        ensures
            r@.entries.len() == 0,
            r@.issued == 0,
            r@.wf(),
    {
        Registry { programs: Vec::new(), issued: 0 }
    }

    /// The number of entries.
    pub fn len(&self) -> (n: usize)
        ensures
            n == self@.entries.len(),
    {
        self.programs.len()
    }

    /// The entries, in order.
    pub fn programs(&self) -> (r: &Vec<TMProgram>)
        ensures
            r@ == self@.entries,
    {
        &self.programs
    }

    /// The entry at `index`, if there is one.
    pub fn get(&self, index: usize) -> (r: Option<&TMProgram>)
        ensures
            match r {
                Some(entry) => self@.has(index as int) && *entry == self@.entries[index as int],
                None => !self@.has(index as int),
            },
    {
        if index < self.programs.len() {
            Some(&self.programs[index])
        } else {
            None
        }
    }

    /// The number of processes that the registry has taken in so far.
    pub fn issued(&self) -> (n: u64)
        ensures
            n == self@.issued,
    {
        self.issued
    }

    /// Reports the outcome of starting the program of the entry at `index`:
    /// `pid` is the process identifier of the new process, or `None` where the
    /// start failed. On success the entry holds the new process under a handle
    /// that the registry has never given before. It fails with `WrongIndex`
    /// where no entry stands at `index`, and with `RuntimeError` where the
    /// start failed, where the entry already has a process, or where no handle
    /// is left to give; the registry is then unchanged.
    pub fn launched(&mut self, index: usize, pid: Option<u32>) -> (r: Result<(), CommandError>)
        requires
            old(self)@.wf(),
        ensures
            (final(self)@, r) == old(self)@.launched(index as int, pid),
            final(self)@.wf(),
    {
        if index >= self.programs.len() {
            return Err(CommandError::WrongIndex);
        }
        if self.programs[index].child.is_some() || self.issued == u64::MAX {
            return Err(CommandError::RuntimeError);
        }
        match pid {
            None => Err(CommandError::RuntimeError),
            Some(pid) => {
                let handle = ProcessHandle { pid, serial: self.issued };
                let r = self.programs[index].launch(Some(handle));
                self.issued = self.issued + 1;
                assert(self@.entries =~= old(self)@.launched(index as int, Some(pid)).0.entries);
                r
            },
        }
    }

    /// Decides on the operator's request to start the entry at `index`. An
    /// entry that has a process is left alone and nothing follows. For an entry
    /// without one the restart bookkeeping starts afresh and the action is to
    /// start the program. It fails with `WrongIndex` where no entry stands at
    /// `index`.
    pub fn plan_launch(&mut self, index: usize) -> (r: Result<Action, CommandError>)
        requires
            old(self)@.wf(),
        ensures
            (final(self)@, r) == old(self)@.launch_planned(index as int),
            final(self)@.wf(),
    {
        if index >= self.programs.len() {
            return Err(CommandError::WrongIndex);
        }
        if self.programs[index].child.is_some() {
            return Ok(Action::Done);
        }
        self.programs[index].restart_count = 0;
        self.programs[index].failed = false;
        assert(self@.entries =~= old(self)@.launch_planned(index as int).0.entries);
        Ok(Action::Spawn { index })
    }

    /// Begins a stop of the entry at `index`. The entry keeps its process and
    /// is marked as being stopped; the action is to stop the process with the
    /// signal that the entry's configuration names, read as
    /// [`stop_signal`](crate::signal::stop_signal) says, and within the time of
    /// that configuration. It fails with
    /// `WrongIndex` where no entry stands at `index` and with
    /// `ProgramNotLaunched` where the entry has no process; the registry is then
    /// unchanged.
    pub fn begin_stop(&mut self, index: usize, relaunch: bool) -> (r: Result<Action, CommandError>)
        requires
            old(self)@.wf(),
        ensures
            (final(self)@, r) == old(self)@.stop_begun(index as int, relaunch),
            final(self)@.wf(),
    {
        if index >= self.programs.len() {
            return Err(CommandError::WrongIndex);
        }
        match self.programs[index].child {
            None => Err(CommandError::ProgramNotLaunched),
            Some(handle) => {
                self.programs[index].stopping = true;
                let signal = stop_signal(self.programs[index].config.stopsignal.as_str());
                let wait = self.programs[index].config.stoptime;
                Ok(Action::Stop { index, handle, signal, wait, relaunch })
            },
        }
    }

    /// Reports the end of the stop of `handle`, the process of the entry at
    /// `index`. Where the stop signal could not be sent (`delivered` is false)
    /// the entry keeps its process and the report fails with `RuntimeError`.
    /// Otherwise the process is gone: the entry gives up its handle, and where
    /// `relaunch` is set the entry is started again as on the operator's
    /// request. It fails with `WrongIndex` where no entry stands at `index` and
    /// with `ProgramNotLaunched` where the entry does not hold `handle`; the
    /// registry is then unchanged.
    pub fn stopped(&mut self, index: usize, handle: ProcessHandle, delivered: bool, relaunch: bool) -> (r:
        Result<Action, CommandError>)
        requires
            old(self)@.wf(),
        ensures
            (final(self)@, r) == old(self)@.stopped(index as int, handle, delivered, relaunch),
            final(self)@.wf(),
    {
        if index >= self.programs.len() {
            return Err(CommandError::WrongIndex);
        }
        let holds = match self.programs[index].child {
            Some(h) => h.pid == handle.pid && h.serial == handle.serial,
            None => false,
        };
        if !holds {
            return Err(CommandError::ProgramNotLaunched);
        }
        self.programs[index].stopping = false;
        if !delivered {
            return Err(CommandError::RuntimeError);
        }
        self.programs[index].child = None;
        assert(self@.entries =~= old(self)@.with_entry(
            index as int,
            TMProgram { child: None, stopping: false, ..old(self)@.entries[index as int] },
        ).entries);
        if relaunch {
            self.plan_launch(index)
        } else {
            Ok(Action::Done)
        }
    }

    /// Begins the final cleanup: a stop is begun for every entry that has a
    /// process. The actions stop those processes, in the order of the entries;
    /// none of them starts a program again.
    pub fn shutdown(&mut self) -> (actions: Vec<Action>)
        requires
            old(self)@.wf(),
        ensures
            final(self)@ == old(self)@.shut_down(),
            final(self)@.wf(),
            actions@ == shutdown_actions(old(self)@.entries, old(self)@.entries.len() as int),
    {
        let ghost before = self@;
        let mut actions: Vec<Action> = Vec::new();
        let n = self.programs.len();
        let mut i: usize = 0;
        while i < n
            invariant
                i <= n,
                n == before.entries.len(),
                self.programs@.len() == n,
                self.issued == before.issued,
                self@.wf(),
                forall|k: int|
                    0 <= k < i ==> (#[trigger] self.programs@[k]) == before.entries[k].being_stopped(),
                forall|k: int| i <= k < n ==> (#[trigger] self.programs@[k]) == before.entries[k],
                actions@ == shutdown_actions(before.entries, i as int),
            decreases n - i,
        {
            match self.begin_stop(i, false) {
                Ok(action) => {
                    actions.push(action);
                },
                Err(_) => {},
            }
            i += 1;
        }
        assert(self@.entries =~= before.shut_down().entries);
        actions
    }
}

} // verus!
