//! What holds of the supervisor whatever happens outside: the laws that the
//! operations obey together, each proved from the models that their contracts
//! are stated over.

use vstd::prelude::*;
use crate::command::{CommandError, CommandUser, ReplyView};
use crate::config::{autostart_entries, names_distinct, position, position_is_first, TMProgramConfig};
use crate::monitor::probe_at;
use crate::program::{ProcessHandle, TMProgram};
use crate::program_state::{ProcMetadata, ProgramState};
use crate::program_status::{Probe, ProgramStatus, StatusError};
use crate::registry::{shutdown_actions, Action, RegistryView};

verus! {

/// The registry after a successful start was reported for each of the first
/// `n` entries in turn, `pids[i]` being the process of entry `i`.
pub open spec fn all_launched(registry: RegistryView, pids: Seq<u32>, n: int) -> RegistryView
    decreases n,
{
    if n <= 0 {
        registry
    } else {
        all_launched(registry, pids, n - 1).launched(n - 1, Some(pids[n - 1])).0
    }
}

/// Startup makes an entry for every program that starts with the supervisor,
/// and for no other: each entry is the fresh entry of such a program, and each
/// such program has its entry.
pub proof fn startup_covers_autostart(programs: Seq<(String, TMProgramConfig)>, n: int)
    requires
        0 <= n <= programs.len(),
    ensures
        forall|j: int|
            0 <= j < n && (#[trigger] programs[j]).1.autostart ==> autostart_entries(programs, n).contains(
                TMProgram::fresh(programs[j].0, programs[j].1),
            ),
        forall|i: int|
            #![trigger autostart_entries(programs, n)[i]]
            0 <= i < autostart_entries(programs, n).len() ==> exists|j: int|
                0 <= j < n && (#[trigger] programs[j]).1.autostart && autostart_entries(programs, n)[i]
                    == TMProgram::fresh(programs[j].0, programs[j].1),
    decreases n,
{
    if n > 0 {
        startup_covers_autostart(programs, n - 1);
        let before = autostart_entries(programs, n - 1);
        let all = autostart_entries(programs, n);
        assert forall|j: int| 0 <= j < n && (#[trigger] programs[j]).1.autostart implies all.contains(
            TMProgram::fresh(programs[j].0, programs[j].1),
        ) by {
            let entry = TMProgram::fresh(programs[j].0, programs[j].1);
            if j < n - 1 {
                let i = choose|i: int| 0 <= i < before.len() && before[i] == entry;
                assert(all[i] == entry);
            } else {
                assert(all[before.len() as int] == entry);
            }
        }
        assert forall|i: int| #![trigger all[i]] 0 <= i < all.len() implies exists|j: int|
            0 <= j < n && (#[trigger] programs[j]).1.autostart && all[i] == TMProgram::fresh(
                programs[j].0,
                programs[j].1,
            ) by {
            if i < before.len() {
                assert(all[i] == before[i]);
                let j = choose|j: int|
                    0 <= j < n - 1 && (#[trigger] programs[j]).1.autostart && before[i] == TMProgram::fresh(
                        programs[j].0,
                        programs[j].1,
                    );
                assert(programs[j].1.autostart);
            } else {
                assert(programs[n - 1].1.autostart);
            }
        }
    }
}

/// The registry that startup builds from the declared programs.
pub open spec fn startup_registry(programs: Seq<(String, TMProgramConfig)>) -> RegistryView {
    RegistryView { entries: autostart_entries(programs, programs.len() as int), issued: 0 }
}

/// The entries that startup makes are well formed, have no process yet, and
/// carry distinct names.
proof fn startup_entries_are_fresh(programs: Seq<(String, TMProgramConfig)>, n: int)
    requires
        names_distinct(programs),
        0 <= n <= programs.len(),
    ensures
        autostart_entries(programs, n).len() <= n,
        forall|i: int|
            0 <= i < autostart_entries(programs, n).len() ==> (#[trigger] autostart_entries(programs, n)[i]).wf()
                && autostart_entries(programs, n)[i].child is None,
        forall|i: int, j: int|
            0 <= i < autostart_entries(programs, n).len() && n <= j < programs.len() ==> (
            #[trigger] autostart_entries(programs, n)[i]).name@ != (#[trigger] programs[j]).0@,
        forall|i: int, j: int|
            0 <= i < j < autostart_entries(programs, n).len() ==> (#[trigger] autostart_entries(
                programs,
                n,
            )[i]).name@ != (#[trigger] autostart_entries(programs, n)[j]).name@,
    decreases n,
{
    if n > 0 {
        startup_entries_are_fresh(programs, n - 1);
        let before = autostart_entries(programs, n - 1);
        let all = autostart_entries(programs, n);
        assert forall|i: int, j: int| 0 <= i < all.len() && n <= j < programs.len() implies (
        #[trigger] all[i]).name@ != (#[trigger] programs[j]).0@ by {
            if i < before.len() {
                assert(all[i] == before[i]);
            } else {
                assert(all[i].name == programs[n - 1].0);
            }
        }
        assert forall|i: int, j: int| 0 <= i < j < all.len() implies (#[trigger] all[i]).name@ != (
        #[trigger] all[j]).name@ by {
            assert(all[i] == before[i]);
            if j < before.len() {
                assert(all[j] == before[j]);
            } else {
                assert(all[j].name == programs[n - 1].0);
            }
        }
    }
}

/// Reporting a successful start for each of the first `n` entries of a
/// registry without processes gives each of them its process.
proof fn starting_in_turn(registry: RegistryView, pids: Seq<u32>, n: int)
    requires
        registry.wf(),
        0 <= n <= registry.entries.len(),
        pids.len() == registry.entries.len(),
        registry.issued + n <= u64::MAX,
        forall|i: int| registry.has(i) ==> (#[trigger] registry.entries[i]).child is None,
    ensures
        all_launched(registry, pids, n).wf(),
        all_launched(registry, pids, n).issued == registry.issued + n,
        all_launched(registry, pids, n).entries.len() == registry.entries.len(),
        forall|i: int|
            0 <= i < n ==> (#[trigger] all_launched(registry, pids, n).entries[i]).child == Some(
                ProcessHandle { pid: pids[i], serial: (registry.issued + i) as u64 },
            ),
        forall|i: int|
            n <= i < registry.entries.len() ==> (#[trigger] all_launched(registry, pids, n).entries[i])
                == registry.entries[i],
    decreases n,
{
    if n > 0 {
        starting_in_turn(registry, pids, n - 1);
        let before = all_launched(registry, pids, n - 1);
        assert(before.entries[n - 1] == registry.entries[n - 1]);
        launched_keeps_wf(before, n - 1, Some(pids[n - 1]));
    }
}

/// After startup, once the start of every entry has succeeded, every entry
/// holds a live process: the one that was started for it, under a handle of
/// its own.
pub proof fn startup_gives_every_entry_a_process(programs: Seq<(String, TMProgramConfig)>, pids: Seq<u32>)
    requires
        names_distinct(programs),
        programs.len() <= usize::MAX,
        pids.len() == startup_registry(programs).entries.len(),
    ensures
        ({
            let begun = startup_registry(programs);
            let started = all_launched(begun, pids, begun.entries.len() as int);
            &&& begun.wf()
            &&& started.wf()
            &&& started.entries.len() == begun.entries.len()
            &&& forall|i: int|
                begun.has(i) ==> (#[trigger] started.entries[i]).child == Some(
                    ProcessHandle { pid: pids[i], serial: i as u64 },
                )
        }),
{
    let begun = startup_registry(programs);
    startup_entries_are_fresh(programs, programs.len() as int);
    assert(begun.wf());
    starting_in_turn(begun, pids, begun.entries.len() as int);
}

/// Reporting a start keeps a well-formed registry well formed.
pub proof fn launched_keeps_wf(registry: RegistryView, index: int, pid: Option<u32>)
    requires
        registry.wf(),
    ensures
        registry.launched(index, pid).0.wf(),
{
    let after = registry.launched(index, pid).0;
    if after != registry {
        assert forall|i: int| after.has(i) implies (#[trigger] after.entries[i]).wf() && after.entries[i].name
            == registry.entries[i].name && (i != index ==> after.entries[i] == registry.entries[i]) by {
            assert(registry.entries[i].wf());
        }
    }
}

/// A live process whose metadata names a state has the status `Running`, in
/// that state.
pub proof fn live_process_is_running(entry: TMProgram, metadata: ProcMetadata)
    requires
        entry.child is Some,
        metadata.reading() is Ok,
    ensures
        entry.status_of(Probe::Alive(metadata)) == Ok::<ProgramStatus, StatusError>(
            ProgramStatus::Running(metadata.reading().unwrap()),
        ),
{
}

/// The status is never torn: it says that the entry has no process exactly
/// where the entry has none, whatever was seen.
pub proof fn status_matches_handle(entry: TMProgram, probe: Probe)
    ensures
        entry.status_of(probe) == Ok::<ProgramStatus, StatusError>(ProgramStatus::Nothing) <==> entry.child
            is None,
{
}

/// No two entries hold the same process.
pub proof fn processes_are_exclusive(registry: RegistryView, i: int, j: int)
    requires
        registry.wf(),
        registry.has(i),
        registry.has(j),
        i != j,
        registry.entries[i].child is Some,
    ensures
        registry.entries[i].child != registry.entries[j].child,
{
    if registry.entries[j].child is Some {
        if i < j {
            assert(registry.entries[i].child.unwrap().serial != registry.entries[j].child.unwrap().serial);
        } else {
            assert(registry.entries[j].child.unwrap().serial != registry.entries[i].child.unwrap().serial);
        }
    }
}

/// `kill` on an entry without a process fails with `ProgramNotLaunched` and
/// changes nothing, so that a second `kill` meets the same registry and fails
/// in the same way.
pub proof fn kill_of_stopped_entry_is_idempotent(registry: RegistryView, idx: u32, probes: Seq<Option<Probe>>)
    requires
        registry.has(idx as int),
        registry.entries[idx as int].child is None,
    ensures
        ({
            let first = CommandUser::Kill(idx).outcome(registry, true, probes);
            let second = CommandUser::Kill(idx).outcome(first.registry, first.running, probes);
            &&& first.result == Err::<ReplyView, CommandError>(CommandError::ProgramNotLaunched)
            &&& first.registry == registry
            &&& first.running
            &&& second.result == Err::<ReplyView, CommandError>(CommandError::ProgramNotLaunched)
            &&& second.registry == registry
            &&& second.running
        }),
{
}

/// Once the stop of an entry's process is complete, a further `kill` of that
/// entry fails with `ProgramNotLaunched` and changes nothing.
pub proof fn kill_after_kill_finds_no_process(registry: RegistryView, idx: u32, probes: Seq<Option<Probe>>)
    requires
        registry.wf(),
        registry.has(idx as int),
        registry.entries[idx as int].child is Some,
    ensures
        ({
            let handle = registry.entries[idx as int].child.unwrap();
            let first = CommandUser::Kill(idx).outcome(registry, true, probes);
            let stopped = first.registry.stopped(idx as int, handle, true, false);
            let second = CommandUser::Kill(idx).outcome(stopped.0, true, probes);
            &&& first.result == Ok::<ReplyView, CommandError>(
                ReplyView::act(registry.entries[idx as int].stop_action(idx as int, false)),
            )
            &&& stopped.1 == Ok::<Action, CommandError>(Action::Done)
            &&& stopped.0.entries[idx as int].child is None
            &&& second.result == Err::<ReplyView, CommandError>(CommandError::ProgramNotLaunched)
            &&& second.registry == stopped.0
        }),
{
}

/// `restart` of an entry that has a process, followed to its end: the stop
/// is begun, its end is reported, the program is started, and the new process
/// is reported. The entry then holds the new process, under a handle that
/// differs from the one it held before, and every other entry is as it was.
/// The one registry on which the new process is not taken in is the one that
/// has counted as many processes as it can count: there the report of the
/// start fails with `RuntimeError` and the entry stays without a process.
pub proof fn restart_gives_a_new_process(
    registry: RegistryView,
    idx: u32,
    running: bool,
    probes: Seq<Option<Probe>>,
    pid: u32,
)
    requires
        registry.wf(),
        registry.has(idx as int),
        registry.entries[idx as int].child is Some,
    ensures
        ({
            let old_handle = registry.entries[idx as int].child.unwrap();
            let begun = CommandUser::Restart(idx).outcome(registry, running, probes);
            let stopped = begun.registry.stopped(idx as int, old_handle, true, true);
            let started = stopped.0.launched(idx as int, Some(pid));
            &&& begun.result == Ok::<ReplyView, CommandError>(
                ReplyView::act(registry.entries[idx as int].stop_action(idx as int, true)),
            )
            &&& stopped.1 == Ok::<Action, CommandError>(Action::Spawn { index: idx as usize })
            &&& started.0.wf()
            &&& started.0.entries.len() == registry.entries.len()
            &&& forall|j: int|
                registry.has(j) && j != idx ==> (#[trigger] started.0.entries[j]) == registry.entries[j]
            &&& registry.issued < u64::MAX ==> {
                &&& started.1 == Ok::<(), CommandError>(())
                &&& started.0.entries[idx as int].child is Some
                &&& started.0.entries[idx as int].child.unwrap().pid == pid
                &&& started.0.entries[idx as int].child.unwrap() != old_handle
            }
            &&& registry.issued == u64::MAX ==> {
                &&& started.1 == Err::<(), CommandError>(CommandError::RuntimeError)
                &&& started.0.entries[idx as int].child is None
            }
        }),
{
    let old_handle = registry.entries[idx as int].child.unwrap();
    let begun = CommandUser::Restart(idx).outcome(registry, running, probes);
    let stopped = begun.registry.stopped(idx as int, old_handle, true, true);
    assert(registry.entries[idx as int].wf());
    assert(old_handle.serial < registry.issued);
    stopped_keeps_wf(begun.registry, idx as int, old_handle, true, true);
    launched_keeps_wf(stopped.0, idx as int, Some(pid));
}

/// Beginning a stop keeps a well-formed registry well formed.
pub proof fn stop_begun_keeps_wf(registry: RegistryView, index: int, relaunch: bool)
    requires
        registry.wf(),
    ensures
        registry.stop_begun(index, relaunch).0.wf(),
{
    let after = registry.stop_begun(index, relaunch).0;
    if after != registry {
        assert forall|i: int| after.has(i) implies (#[trigger] after.entries[i]).wf() && after.entries[i].name
            == registry.entries[i].name && after.entries[i].child == registry.entries[i].child by {
            assert(registry.entries[i].wf());
        }
    }
}

/// Reporting the end of a stop keeps a well-formed registry well formed.
pub proof fn stopped_keeps_wf(
    registry: RegistryView,
    index: int,
    handle: ProcessHandle,
    delivered: bool,
    relaunch: bool,
)
    requires
        registry.wf(),
    ensures
        registry.stopped(index, handle, delivered, relaunch).0.wf(),
{
    let after = registry.stopped(index, handle, delivered, relaunch).0;
    if after != registry {
        assert forall|i: int| after.has(i) implies (#[trigger] after.entries[i]).wf() && after.entries[i].name
            == registry.entries[i].name && (after.entries[i].child is None || after.entries[i].child
            == registry.entries[i].child) by {
            assert(registry.entries[i].wf());
        }
    }
}

/// A command keeps a well-formed registry well formed, and neither adds,
/// removes, renames nor reorders an entry.
pub proof fn commands_keep_the_entries(
    command: CommandUser,
    registry: RegistryView,
    running: bool,
    probes: Seq<Option<Probe>>,
)
    requires
        registry.wf(),
    ensures
        command.outcome(registry, running, probes).registry.wf(),
        command.outcome(registry, running, probes).registry.entries.len() == registry.entries.len(),
        forall|i: int|
            registry.has(i) ==> (#[trigger] command.outcome(registry, running, probes).registry.entries[i]).name
                == registry.entries[i].name,
{
    let after = command.outcome(registry, running, probes).registry;
    if after != registry {
        assert forall|i: int| after.has(i) implies (#[trigger] after.entries[i]).wf() && after.entries[i].name
            == registry.entries[i].name && after.entries[i].child == registry.entries[i].child by {
            assert(registry.entries[i].wf());
        }
    }
}

/// A sweep neither adds, removes, renames nor reorders an entry and leaves
/// every configuration as it is. An entry that is watched and whose process
/// was seen to have exited has no process afterwards; every other entry is
/// unchanged.
pub proof fn sweep_retires_what_has_exited(registry: RegistryView, probes: Seq<Option<Probe>>)
    ensures
        registry.swept(probes).entries.len() == registry.entries.len(),
        registry.swept(probes).issued == registry.issued,
        forall|i: int|
            registry.has(i) ==> (#[trigger] registry.swept(probes).entries[i]).name == registry.entries[i].name
                && registry.swept(probes).entries[i].config == registry.entries[i].config,
        forall|i: int|
            registry.has(i) && registry.entries[i].watched(probe_at(probes, i)) && registry.entries[i].seen(
                probe_at(probes, i),
            ) is Ok && registry.entries[i].seen(probe_at(probes, i)).unwrap().is_exit() ==> (
            #[trigger] registry.swept(probes).entries[i]).child is None,
        forall|i: int|
            registry.has(i) && !(registry.entries[i].watched(probe_at(probes, i)) && registry.entries[i].seen(
                probe_at(probes, i),
            ) is Ok && registry.entries[i].seen(probe_at(probes, i)).unwrap().is_exit()) ==> (
            #[trigger] registry.swept(probes).entries[i]) == registry.entries[i],
{
}

/// A new configuration changes nothing but configurations: every entry keeps
/// its name, its place, its process and its restart bookkeeping. An entry
/// whose name is declared gets the configuration declared under it; an entry
/// whose name is not declared keeps its own.
pub proof fn reload_keeps_processes(registry: RegistryView, programs: Seq<(String, TMProgramConfig)>)
    ensures
        registry.reloaded(programs).entries.len() == registry.entries.len(),
        registry.reloaded(programs).issued == registry.issued,
        forall|i: int|
            registry.has(i) ==> {
                let before = registry.entries[i];
                let after = #[trigger] registry.reloaded(programs).entries[i];
                &&& after.name == before.name
                &&& after.child == before.child
                &&& after.restart_count == before.restart_count
                &&& after.failed == before.failed
                &&& after.stopping == before.stopping
                &&& match position(programs, before.name@) {
                    Some(k) => 0 <= k < programs.len() && programs[k].0@ == before.name@ && after.config
                        == programs[k].1,
                    None => after.config == before.config && forall|j: int|
                        0 <= j < programs.len() ==> (#[trigger] programs[j]).0@ != before.name@,
                }
            },
{
    assert forall|i: int| registry.has(i) implies {
        let before = registry.entries[i];
        let after = #[trigger] registry.reloaded(programs).entries[i];
        match position(programs, before.name@) {
            Some(k) => 0 <= k < programs.len() && programs[k].0@ == before.name@ && after.config
                == programs[k].1,
            None => after.config == before.config && forall|j: int|
                0 <= j < programs.len() ==> (#[trigger] programs[j]).0@ != before.name@,
        }
    } by {
        position_is_first(programs, registry.entries[i].name@);
    }
}

/// `status` with a number that names no entry fails with `WrongIndex` and
/// leaves the registry and the running flag as they were, whatever the flag
/// holds. Whatever its number, `status` changes neither.
pub proof fn status_changes_nothing(registry: RegistryView, idx: u32, running: bool, probes: Seq<Option<Probe>>)
    ensures
        CommandUser::Status(idx).outcome(registry, running, probes).registry == registry,
        CommandUser::Status(idx).outcome(registry, running, probes).running == running,
        !registry.has(idx as int) ==> CommandUser::Status(idx).outcome(registry, running, probes).result
            == Err::<ReplyView, CommandError>(CommandError::WrongIndex),
{
}

/// Only `exit` touches the running flag, and it clears it whatever the flag
/// held; the answer and the registry that a command leaves do not depend on
/// the flag.
pub proof fn only_exit_touches_the_flag(
    command: CommandUser,
    registry: RegistryView,
    running: bool,
    probes: Seq<Option<Probe>>,
)
    ensures
        command.outcome(registry, running, probes).running == (running && !(command is Exit)),
        command.outcome(registry, running, probes).registry == command.outcome(registry, !running, probes).registry,
        command.outcome(registry, running, probes).result == command.outcome(registry, !running, probes).result,
{
}

/// After `exit` the command loop carries out no further command: the turn
/// of `exit` clears the running flag and touches no entry, and the turn of
/// whatever command follows leaves the registry as it was, gives no answer
/// and leaves the flag cleared.
pub proof fn nothing_runs_after_exit(
    registry: RegistryView,
    probes: Seq<Option<Probe>>,
    next: CommandUser,
    later_probes: Seq<Option<Probe>>,
)
    ensures
        ({
            let left = CommandUser::Exit.turn(registry, true, probes);
            let after = next.turn(left.registry, left.running, later_probes);
            &&& !left.running
            &&& left.registry == registry
            &&& left.result == Some(Ok::<ReplyView, CommandError>(ReplyView::act(Action::Done)))
            &&& !after.running
            &&& after.registry == registry
            &&& after.result is None
        }),
{
}

/// The final cleanup stops every live process: for each entry that has a
/// process, the actions hold the stop of that process.
pub proof fn shutdown_stops_every_process(entries: Seq<TMProgram>, n: int)
    requires
        0 <= n <= entries.len(),
    ensures
        forall|i: int|
            0 <= i < n && (#[trigger] entries[i]).child is Some ==> shutdown_actions(entries, n).contains(
                entries[i].stop_action(i, false),
            ),
        forall|k: int|
            #![trigger shutdown_actions(entries, n)[k]]
            0 <= k < shutdown_actions(entries, n).len() ==> exists|i: int|
                0 <= i < n && (#[trigger] entries[i]).child is Some && shutdown_actions(entries, n)[k]
                    == entries[i].stop_action(i, false),
    decreases n,
{
    if n > 0 {
        shutdown_stops_every_process(entries, n - 1);
        let before = shutdown_actions(entries, n - 1);
        let all = shutdown_actions(entries, n);
        assert forall|i: int| 0 <= i < n && (#[trigger] entries[i]).child is Some implies all.contains(
            entries[i].stop_action(i, false),
        ) by {
            let action = entries[i].stop_action(i, false);
            if i < n - 1 {
                let k = choose|k: int| 0 <= k < before.len() && before[k] == action;
                assert(all[k] == action);
            } else {
                assert(all[before.len() as int] == action);
            }
        }
        assert forall|k: int| #![trigger all[k]] 0 <= k < all.len() implies exists|i: int|
            0 <= i < n && (#[trigger] entries[i]).child is Some && all[k] == entries[i].stop_action(i, false) by {
            if k < before.len() {
                assert(all[k] == before[k]);
                let i = choose|i: int|
                    0 <= i < n - 1 && (#[trigger] entries[i]).child is Some && before[k] == entries[i].stop_action(
                        i,
                        false,
                    );
                assert(entries[i].child is Some);
            } else {
                assert(entries[n - 1].child is Some);
            }
        }
    }
}

/// Under the policy that restarts after unexpected exits only, an unexpected
/// exit is answered by a restart, which is counted, as long as restarts are
/// left; once they are used up the program is given up, and its entry shows
/// otherwise than one that was never launched.
pub proof fn restarts_are_limited(entry: TMProgram, code: Option<i32>)
    requires
        entry.config.autorestart is UnExpected,
        entry.unexpected(code),
    ensures
        entry.restart_count < entry.config.number_restart ==> entry.relaunches(code) && entry.after_exit(
            code,
        ).restart_count == entry.restart_count + 1 && entry.after_exit(code).failed == entry.failed,
        entry.restart_count >= entry.config.number_restart ==> !entry.relaunches(code) && entry.after_exit(
            code,
        ).failed && entry.after_exit(code).restart_count == entry.restart_count,
        entry.after_exit(code).child is None,
        entry.after_exit(code).failed ==> entry.after_exit(code).shown(ProgramStatus::Nothing)
            != TMProgram::fresh(entry.name, entry.config).shown(ProgramStatus::Nothing),
{
    reveal_strlit("not launched (restart limit reached)");
    reveal_strlit("not launched");
    assert("not launched (restart limit reached)"@.len() != "not launched"@.len());
}

/// The restart policy never lowers the restart count, and the other policies
/// leave it alone.
pub proof fn restart_count_never_falls(entry: TMProgram, code: Option<i32>)
    ensures
        entry.after_exit(code).restart_count >= entry.restart_count,
        !(entry.config.autorestart is UnExpected) ==> entry.after_exit(code).restart_count
            == entry.restart_count,
{
}

/// An exit by a signal shows otherwise than an exit with a code, whatever the
/// numbers; both show otherwise than an entry without a process, given up or
/// not; and none of them shows like a live process, whatever its state.
pub proof fn renderings_differ(code: i32, signal: i32, state: ProgramState)
    ensures
        ProgramStatus::Signal(signal).rendering() != ProgramStatus::Code(code).rendering(),
        ProgramStatus::Signal(signal).rendering() != ProgramStatus::Nothing.rendering(),
        ProgramStatus::Code(code).rendering() != ProgramStatus::Nothing.rendering(),
        ProgramStatus::Signal(signal).rendering() != "not launched (restart limit reached)"@,
        ProgramStatus::Code(code).rendering() != "not launched (restart limit reached)"@,
        ProgramStatus::Running(state).rendering() != ProgramStatus::Code(code).rendering(),
        ProgramStatus::Running(state).rendering() != ProgramStatus::Signal(signal).rendering(),
        ProgramStatus::Running(state).rendering() != ProgramStatus::Nothing.rendering(),
        ProgramStatus::Running(state).rendering() != "not launched (restart limit reached)"@,
{
    reveal_strlit("exited with code: ");
    reveal_strlit("terminated by signal: ");
    reveal_strlit("not launched");
    reveal_strlit("not launched (restart limit reached)");
    reveal_strlit("Running");
    reveal_strlit("Sleeping");
    reveal_strlit("DiskSleep");
    reveal_strlit("Zombie");
    reveal_strlit("TracingStop");
    reveal_strlit("Dead");
    reveal_strlit("ProcessCreated");
    reveal_strlit("Unknown");
    let by_code = ProgramStatus::Code(code).rendering();
    let by_signal = ProgramStatus::Signal(signal).rendering();
    let live = ProgramStatus::Running(state).rendering();
    assert(by_code[0] == 'e');
    assert(by_signal[0] == 't');
    assert("not launched"@[0] == 'n');
    assert("not launched (restart limit reached)"@[0] == 'n');
    assert(live[0] != 'e' && live[0] != 't' && live[0] != 'n');
}

} // verus!
