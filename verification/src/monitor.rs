//! The monitor's sweep: one pass over the registry with what was just seen of
//! each process, which retires the processes that have exited and applies the
//! restart policy to their entries.

use vstd::prelude::*;
use vstd::string::*;
use crate::program::TMProgram;
use crate::program_status::{Probe, ProgramStatus, StatusError};
use crate::registry::{Registry, RegistryView};

verus! {

/// What the monitor found of one entry.
#[derive(Debug, Clone, Copy, PartialEq, Eq, Structural)]
pub enum Verdict {
    /// Nothing to act on: the entry is not watched, or its process is alive.
    Unchanged,
    /// The status could not be determined; the entry is looked at again in the next sweep.
    Undetermined(StatusError),
    /// The process has exited and the entry stays without one.
    Stopped,
    /// The process has exited and the program is to be started again.
    Relaunch,
}

/// What a sweep asks of the caller.
#[derive(Debug, Clone, PartialEq, Eq)]
pub struct SweepReport {
    /// The entries whose programs are to be started again, in ascending order.
    /// Each is started as [`Action::Spawn`](crate::registry::Action) says.
    pub relaunch: Vec<usize>,
    /// One line for each entry whose status could not be determined, in the
    /// order of the entries.
    pub log: Vec<String>,
}

/// What was seen of the process of entry `index`: nothing where the list of
/// looks is too short.
pub open spec fn probe_at(probes: Seq<Option<Probe>>, index: int) -> Option<Probe> {
    if 0 <= index < probes.len() {
        probes[index]
    } else {
        None
    }
}

/// The line that reports that the status of an entry could not be determined.
pub open spec fn undetermined_line(name: Seq<char>, error: StatusError) -> Seq<char> {
    "could not determine the status of ["@ + name + "]: "@ + error.label()
}

impl TMProgram {
    /// Whether the monitor acts on the entry: it has a process, no stop that
    /// the operator asked for is under way, and its process was looked at.
    pub open spec fn watched(self, probe: Option<Probe>) -> bool {
        self.child is Some && !self.stopping && probe is Some
    }

    /// The status that the monitor sees of a watched entry.
    pub open spec fn seen(self, probe: Option<Probe>) -> Result<ProgramStatus, StatusError> {
        self.status_of(probe.unwrap())
    }

    /// What the monitor finds of the entry.
    pub open spec fn verdict(self, probe: Option<Probe>) -> Verdict {
        if !self.watched(probe) {
            Verdict::Unchanged
        } else {
            match self.seen(probe) {
                Err(e) => Verdict::Undetermined(e),
                Ok(status) => if !status.is_exit() {
                    Verdict::Unchanged
                } else if self.relaunches(status.exit_code()) {
                    Verdict::Relaunch
                } else {
                    Verdict::Stopped
                },
            }
        }
    }

    /// The entry after the monitor has looked at it: unchanged unless its
    /// process was seen to have exited.
    pub open spec fn swept(self, probe: Option<Probe>) -> TMProgram {
        if self.watched(probe) && self.seen(probe) is Ok && self.seen(probe).unwrap().is_exit() {
            self.after_exit(self.seen(probe).unwrap().exit_code())
        } else {
            self
        }
    }

    /// Looks at the entry as the monitor does, with what was just seen of its
    /// process (`None`: nothing was seen). An entry without a process, or one
    /// that the operator is stopping, is left alone. An exit retires the
    /// process and brings the restart policy to bear; a status that could not
    /// be determined changes nothing.
    pub fn monitor(&mut self, probe: &Option<Probe>) -> (verdict: Verdict)
        ensures
            *final(self) == old(self).swept(*probe),
            verdict == old(self).verdict(*probe),
    {
        if self.child.is_none() || self.stopping {
            return Verdict::Unchanged;
        }
        match probe {
            None => Verdict::Unchanged,
            Some(seen) => match self.status(seen) {
                Err(e) => Verdict::Undetermined(e),
                Ok(ProgramStatus::Code(code)) => if self.evaluate_auto_restart(Some(code)) {
                    Verdict::Relaunch
                } else {
                    Verdict::Stopped
                },
                Ok(ProgramStatus::Signal(_)) => if self.evaluate_auto_restart(None) {
                    Verdict::Relaunch
                } else {
                    Verdict::Stopped
                },
                Ok(_) => Verdict::Unchanged,
            },
        }
    }
}

/// The entries among the first `n` whose programs a sweep starts again, in
/// ascending order.
pub open spec fn sweep_relaunch(entries: Seq<TMProgram>, probes: Seq<Option<Probe>>, n: int) -> Seq<usize>
    decreases n,
{
    if n <= 0 {
        Seq::empty()
    } else {
        let before = sweep_relaunch(entries, probes, n - 1);
        if entries[n - 1].verdict(probe_at(probes, n - 1)) is Relaunch {
            before.push((n - 1) as usize)
        } else {
            before
        }
    }
}

/// The lines that a sweep logs for the first `n` entries.
pub open spec fn sweep_log(entries: Seq<TMProgram>, probes: Seq<Option<Probe>>, n: int) -> Seq<Seq<char>>
    decreases n,
{
    if n <= 0 {
        Seq::empty()
    } else {
        let before = sweep_log(entries, probes, n - 1);
        match entries[n - 1].verdict(probe_at(probes, n - 1)) {
            Verdict::Undetermined(e) => before.push(undetermined_line(entries[n - 1].name@, e)),
            _ => before,
        }
    }
}

impl RegistryView {
    /// The registry after a sweep: each entry as the monitor leaves it.
    pub open spec fn swept(self, probes: Seq<Option<Probe>>) -> RegistryView {
        RegistryView {
            entries: Seq::new(self.entries.len(), |i: int| self.entries[i].swept(probe_at(probes, i))),
            ..self
        }
    }
}

/// A sweep keeps a well-formed registry well formed.
pub proof fn sweep_keeps_wf(registry: RegistryView, probes: Seq<Option<Probe>>)
    requires
        registry.wf(),
    ensures
        registry.swept(probes).wf(),
{
    let after = registry.swept(probes);
    assert forall|i: int| after.has(i) implies {
        &&& (#[trigger] after.entries[i]).wf()
        &&& after.entries[i].name == registry.entries[i].name
        &&& (after.entries[i].child is None || after.entries[i].child == registry.entries[i].child)
    } by {
        assert(registry.entries[i].wf());
    }
}

/// Exactly the entries whose processes were seen to have exited, and whose
/// restart policy says so, are started again by a sweep.
pub proof fn sweep_relaunch_members(entries: Seq<TMProgram>, probes: Seq<Option<Probe>>, n: int)
    requires
        0 <= n <= entries.len(),
        n <= usize::MAX,
    ensures
        forall|i: int|
            0 <= i < n ==> (sweep_relaunch(entries, probes, n).contains(i as usize) <==> (
            #[trigger] entries[i]).verdict(probe_at(probes, i)) is Relaunch),
        forall|k: int|
            0 <= k < sweep_relaunch(entries, probes, n).len() ==> (#[trigger] sweep_relaunch(
                entries,
                probes,
                n,
            )[k]) < n,
        forall|j: int, k: int|
            0 <= j < k < sweep_relaunch(entries, probes, n).len() ==> sweep_relaunch(entries, probes, n)[j]
                < sweep_relaunch(entries, probes, n)[k],
    decreases n,
{
    if n > 0 {
        sweep_relaunch_members(entries, probes, n - 1);
        let before = sweep_relaunch(entries, probes, n - 1);
        let all = sweep_relaunch(entries, probes, n);
        if entries[n - 1].verdict(probe_at(probes, n - 1)) is Relaunch {
            assert(all == before.push((n - 1) as usize));
            assert(all[before.len() as int] == (n - 1) as usize);
            assert forall|i: int| 0 <= i < n implies (all.contains(i as usize) <==> (
            #[trigger] entries[i]).verdict(probe_at(probes, i)) is Relaunch) by {
                if i < n - 1 {
                    if before.contains(i as usize) {
                        let k = choose|k: int| 0 <= k < before.len() && before[k] == i as usize;
                        assert(all[k] == i as usize);
                    }
                    if all.contains(i as usize) {
                        let k = choose|k: int| 0 <= k < all.len() && all[k] == i as usize;
                        assert(k < before.len());
                        assert(before[k] == i as usize);
                    }
                }
            }
        } else {
            assert(all == before);
        }
    }
}

impl Registry {
    /// One sweep of the monitor. `probes` holds what was just seen of the
    /// process of each entry, in the order of the entries (`None`, or a list
    /// that is too short: nothing was seen). Each entry is looked at as
    /// [`TMProgram::monitor`] says. The report names the entries to start again
    /// and holds a line for each entry whose status could not be determined.
    pub fn sweep(&mut self, probes: &Vec<Option<Probe>>) -> (report: SweepReport)
        requires
            old(self)@.wf(),
        ensures
            final(self)@ == old(self)@.swept(probes@),
            final(self)@.wf(),
            report.relaunch@ == sweep_relaunch(old(self)@.entries, probes@, old(self)@.entries.len() as int),
            report.log.deep_view() == sweep_log(old(self)@.entries, probes@, old(self)@.entries.len() as int),
    {
        let ghost before = self@;
        let nothing: Option<Probe> = None;
        let mut relaunch: Vec<usize> = Vec::new();
        let mut log: Vec<String> = Vec::new();
        let n = self.programs.len();
        let mut i: usize = 0;
        assert(log.deep_view() =~= sweep_log(before.entries, probes@, 0));
        while i < n
            invariant
                i <= n,
                n == before.entries.len(),
                self.programs@.len() == n,
                self.issued == before.issued,
                nothing is None,
                forall|k: int|
                    0 <= k < i ==> (#[trigger] self.programs@[k]) == before.entries[k].swept(
                        probe_at(probes@, k),
                    ),
                forall|k: int| i <= k < n ==> (#[trigger] self.programs@[k]) == before.entries[k],
                relaunch@ == sweep_relaunch(before.entries, probes@, i as int),
                log.deep_view() == sweep_log(before.entries, probes@, i as int),
            decreases n - i,
        {
            let probe = if i < probes.len() {
                &probes[i]
            } else {
                &nothing
            };
            assert(*probe == probe_at(probes@, i as int));
            let ghost logged = log.deep_view();
            match self.programs[i].monitor(probe) {
                Verdict::Relaunch => {
                    relaunch.push(i);
                },
                Verdict::Undetermined(e) => {
                    let mut line = "could not determine the status of [".to_owned();
                    line.append(self.programs[i].name.as_str());
                    line.append("]: ");
                    line.append(e.name());
                    log.push(line);
                    assert(log.deep_view() =~= logged.push(
                        undetermined_line(before.entries[i as int].name@, e),
                    ));
                },
                _ => {},
            }
            i += 1;
        }
        proof {
            sweep_keeps_wf(before, probes@);
            assert(self@.entries =~= before.swept(probes@).entries);
        }
        SweepReport { relaunch, log }
    }
}

} // verus!
