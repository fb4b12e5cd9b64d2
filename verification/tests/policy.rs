use taskmaster::command::CommandUser;
use taskmaster::config::{AutoRestart, TMConfig, TMGlobalConfig, TMProgramConfig};
use taskmaster::monitor::{SweepReport, Verdict};
use taskmaster::program::{ProcessHandle, TMProgram};
use taskmaster::program_state::ProcMetadata;
use taskmaster::program_status::{Probe, ProgramStatus, StatusError};
use taskmaster::registry::{Action, Registry};

fn settings(autorestart: AutoRestart, exit_status: Vec<i32>, number_restart: u32) -> TMProgramConfig {
    TMProgramConfig {
        command: "/bin/worker".to_string(),
        args: Vec::new(),
        process: 1,
        autostart: true,
        autorestart,
        exit_status,
        number_restart,
        health_time: 0,
        stopsignal: "INT".to_string(),
        stoptime: 2,
        cwd: Some("/tmp".to_string()),
        umask: Some(0o22),
        stdout: Some("/tmp/worker.out".to_string()),
        stderr: None,
        env: vec![("MODE".to_string(), "test".to_string())],
    }
}

fn entry(autorestart: AutoRestart, exit_status: Vec<i32>, number_restart: u32) -> TMProgram {
    let mut e = TMProgram::new("worker".to_string(), settings(autorestart, exit_status, number_restart));
    assert_eq!(e.launch(Some(ProcessHandle { pid: 9, serial: 0 })), Ok(()));
    e
}

fn one(autorestart: AutoRestart, exit_status: Vec<i32>, number_restart: u32) -> Registry {
    let config = TMConfig {
        global: TMGlobalConfig { logfile: "log".to_string() },
        programs: vec![("worker".to_string(), settings(autorestart, exit_status, number_restart))],
    };
    let (mut registry, _) = config.launch_all();
    assert_eq!(registry.launched(0, Some(500)), Ok(()));
    registry
}

fn exited(code: i32) -> Vec<Option<Probe>> {
    vec![Some(Probe::Exited { code: Some(code), signal: None })]
}

fn sleeping() -> Vec<Option<Probe>> {
    vec![Some(Probe::Alive(ProcMetadata::StatusFile(b"Name:\tw\nUmask:\t0022\nState:\tS (sleeping)\n".to_vec())))]
}

#[test]
fn new_entry_has_no_process() {
    let e = TMProgram::new("worker".to_string(), settings(AutoRestart::Never, vec![0], 1));
    assert_eq!(e.name, "worker");
    assert_eq!(e.child, None);
    assert_eq!(e.restart_count, 0);
    assert!(!e.failed);
    assert!(!e.stopping);
}

#[test]
fn launch_records_the_process_and_resets_no_counter() {
    let mut e = TMProgram::new("worker".to_string(), settings(AutoRestart::UnExpected, vec![0], 5));
    e.restart_count = 3;
    assert_eq!(e.launch(Some(ProcessHandle { pid: 77, serial: 4 })), Ok(()));
    assert_eq!(e.child, Some(ProcessHandle { pid: 77, serial: 4 }));
    assert_eq!(e.restart_count, 3);
}

#[test]
fn failed_launch_leaves_the_entry_without_a_process() {
    let mut e = TMProgram::new("worker".to_string(), settings(AutoRestart::UnExpected, vec![0], 5));
    let before = e.clone();
    assert_eq!(e.launch(None), Err(taskmaster::command::CommandError::RuntimeError));
    assert_eq!(e, before);
}

#[test]
fn never_leaves_the_program_stopped() {
    let mut e = entry(AutoRestart::Never, vec![0], 3);
    assert!(!e.evaluate_auto_restart(Some(1)));
    assert_eq!(e.child, None);
    assert_eq!(e.restart_count, 0);
    assert!(!e.failed);
}

#[test]
fn always_restarts_whatever_the_exit() {
    for code in [Some(0), Some(1), None] {
        let mut e = entry(AutoRestart::Always, vec![0], 0);
        assert!(e.evaluate_auto_restart(code));
        assert_eq!(e.child, None);
        assert_eq!(e.restart_count, 0);
        assert!(!e.failed);
    }
}

#[test]
fn expected_exit_is_not_restarted() {
    let mut e = entry(AutoRestart::UnExpected, vec![0, 2], 3);
    assert!(!e.evaluate_auto_restart(Some(2)));
    assert_eq!(e.restart_count, 0);
    assert!(!e.failed);
    assert_eq!(e.child, None);
}

#[test]
fn exit_by_signal_is_unexpected() {
    let mut e = entry(AutoRestart::UnExpected, vec![0], 3);
    assert!(e.evaluate_auto_restart(None));
    assert_eq!(e.restart_count, 1);
}

#[test]
fn no_restart_is_left_with_a_limit_of_zero() {
    let mut e = entry(AutoRestart::UnExpected, vec![0], 0);
    assert!(!e.evaluate_auto_restart(Some(1)));
    assert!(e.failed);
    assert_eq!(e.restart_count, 0);
}

#[test]
fn expected_codes_are_looked_up() {
    let c = settings(AutoRestart::UnExpected, vec![0, 3, -1], 1);
    assert!(c.is_expected(0));
    assert!(c.is_expected(3));
    assert!(c.is_expected(-1));
    assert!(!c.is_expected(1));
    assert!(!settings(AutoRestart::UnExpected, Vec::new(), 1).is_expected(0));
}

#[test]
fn three_unexpected_exits_with_two_restarts() {
    let mut registry = one(AutoRestart::UnExpected, vec![0], 2);
    let mut running = true;

    let report = registry.sweep(&exited(1));
    assert_eq!(report, SweepReport { relaunch: vec![0], log: Vec::new() });
    assert_eq!(registry.programs()[0].child, None);
    assert_eq!(registry.programs()[0].restart_count, 1);
    assert_eq!(registry.launched(0, Some(501)), Ok(()));

    let report = registry.sweep(&exited(1));
    assert_eq!(report.relaunch, vec![0]);
    assert_eq!(registry.programs()[0].restart_count, 2);
    assert_eq!(registry.launched(0, Some(502)), Ok(()));
    assert_eq!(registry.programs()[0].child, Some(ProcessHandle { pid: 502, serial: 2 }));

    let report = registry.sweep(&exited(1));
    assert_eq!(report, SweepReport { relaunch: Vec::new(), log: Vec::new() });
    assert_eq!(registry.programs()[0].child, None);
    assert_eq!(registry.programs()[0].restart_count, 2);
    assert!(registry.programs()[0].failed);

    let report = registry.sweep(&vec![None]);
    assert_eq!(report, SweepReport { relaunch: Vec::new(), log: Vec::new() });
    assert!(registry.programs()[0].failed);

    let shown = CommandUser::Status(0).exec(&mut registry, &mut running, &vec![None]).unwrap();
    assert_eq!(shown.out, vec!["worker => not launched (restart limit reached)".to_string()]);

    let never = TMProgram::new("worker".to_string(), settings(AutoRestart::UnExpected, vec![0], 2));
    assert_eq!(CommandUser::display_status(&never, &None), Ok("worker => not launched".to_string()));
}

#[test]
fn launch_by_the_operator_starts_the_count_afresh() {
    let mut registry = one(AutoRestart::UnExpected, vec![0], 1);
    let mut running = true;
    assert_eq!(registry.sweep(&exited(3)).relaunch, vec![0]);
    assert_eq!(registry.launched(0, Some(501)), Ok(()));
    assert!(registry.sweep(&exited(3)).relaunch.is_empty());
    assert!(registry.programs()[0].failed);
    assert_eq!(registry.programs()[0].restart_count, 1);

    let reply = CommandUser::Launch(0).exec(&mut registry, &mut running, &Vec::new()).unwrap();
    assert_eq!(reply.action, Action::Spawn { index: 0 });
    assert_eq!(registry.programs()[0].restart_count, 0);
    assert!(!registry.programs()[0].failed);
    assert_eq!(registry.launched(0, Some(502)), Ok(()));
    assert_eq!(registry.sweep(&exited(3)).relaunch, vec![0]);
}

#[test]
fn sweep_leaves_live_and_unlaunched_entries_alone() {
    let config = TMConfig {
        global: TMGlobalConfig { logfile: "log".to_string() },
        programs: vec![
            ("a".to_string(), settings(AutoRestart::Always, vec![0], 2)),
            ("b".to_string(), settings(AutoRestart::Always, vec![0], 2)),
        ],
    };
    let (mut registry, _) = config.launch_all();
    assert_eq!(registry.launched(0, Some(10)), Ok(()));
    let before = registry.programs().clone();
    let mut probes = sleeping();
    probes.push(Some(Probe::Exited { code: Some(1), signal: None }));
    let report = registry.sweep(&probes);
    assert_eq!(report, SweepReport { relaunch: Vec::new(), log: Vec::new() });
    assert_eq!(*registry.programs(), before);
}

#[test]
fn sweep_logs_what_it_cannot_determine_and_goes_on() {
    let config = TMConfig {
        global: TMGlobalConfig { logfile: "log".to_string() },
        programs: vec![
            ("a".to_string(), settings(AutoRestart::Always, vec![0], 2)),
            ("b".to_string(), settings(AutoRestart::Always, vec![0], 2)),
            ("c".to_string(), settings(AutoRestart::Never, vec![0], 2)),
            ("d".to_string(), settings(AutoRestart::Always, vec![0], 2)),
        ],
    };
    let (mut registry, _) = config.launch_all();
    for i in 0..4 {
        assert_eq!(registry.launched(i, Some(10 + i as u32)), Ok(()));
    }
    let probes = vec![
        Some(Probe::Alive(ProcMetadata::Unreadable)),
        Some(Probe::Exited { code: None, signal: Some(15) }),
        Some(Probe::Exited { code: Some(0), signal: None }),
        Some(Probe::WaitFailed),
    ];
    let report = registry.sweep(&probes);
    assert_eq!(report.relaunch, vec![1]);
    assert_eq!(
        report.log,
        vec![
            "could not determine the status of [a]: StateError".to_string(),
            "could not determine the status of [d]: TryWaitFailed".to_string(),
        ]
    );
    assert_eq!(registry.programs()[0].child, Some(ProcessHandle { pid: 10, serial: 0 }));
    assert_eq!(registry.programs()[1].child, None);
    assert_eq!(registry.programs()[2].child, None);
    assert_eq!(registry.programs()[3].child, Some(ProcessHandle { pid: 13, serial: 3 }));
}

#[test]
fn sweep_does_not_restart_what_the_operator_stops() {
    let mut registry = one(AutoRestart::Always, vec![0], 2);
    let mut running = true;
    CommandUser::Kill(0).exec(&mut registry, &mut running, &Vec::new()).unwrap();
    let before = registry.programs().clone();
    let report = registry.sweep(&vec![Some(Probe::Exited { code: None, signal: Some(2) })]);
    assert_eq!(report, SweepReport { relaunch: Vec::new(), log: Vec::new() });
    assert_eq!(*registry.programs(), before);
}

#[test]
fn monitor_verdicts() {
    let mut e = entry(AutoRestart::Never, vec![0], 0);
    assert_eq!(e.monitor(&None), Verdict::Unchanged);
    assert_eq!(e.monitor(&sleeping()[0]), Verdict::Unchanged);
    assert_eq!(e.monitor(&Some(Probe::WaitFailed)), Verdict::Undetermined(StatusError::TryWaitFailed));
    assert_eq!(
        e.monitor(&Some(Probe::Exited { code: None, signal: None })),
        Verdict::Undetermined(StatusError::RuntimeError)
    );
    assert!(e.child.is_some());
    assert_eq!(e.monitor(&exited(0)[0]), Verdict::Stopped);
    assert!(e.child.is_none());
    assert_eq!(e.monitor(&exited(0)[0]), Verdict::Unchanged);
    let mut e = entry(AutoRestart::Always, vec![0], 0);
    assert_eq!(e.monitor(&exited(0)[0]), Verdict::Relaunch);
}

#[test]
fn status_is_nothing_exactly_without_a_process() {
    let looks = vec![
        Probe::WaitFailed,
        Probe::Exited { code: Some(0), signal: None },
        Probe::Exited { code: None, signal: Some(9) },
        Probe::Exited { code: None, signal: None },
        Probe::Alive(ProcMetadata::Unreadable),
        Probe::Alive(ProcMetadata::BsdStatus(2)),
    ];
    let without = TMProgram::new("w".to_string(), settings(AutoRestart::Never, vec![0], 0));
    let with = entry(AutoRestart::Never, vec![0], 0);
    for look in &looks {
        assert_eq!(without.status(look), Ok(ProgramStatus::Nothing));
        assert_ne!(with.status(look), Ok(ProgramStatus::Nothing));
    }
}
