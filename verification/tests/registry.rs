use taskmaster::command::CommandError;
use taskmaster::config::{AutoRestart, TMConfig, TMGlobalConfig, TMProgramConfig};
use taskmaster::program::{ProcessHandle, TMProgram};
use taskmaster::program_state::ProcMetadata;
use taskmaster::program_state::ProgramState;
use taskmaster::program_status::{Probe, ProgramStatus};
use taskmaster::registry::{stop_step, Action, Registry, StopStep};
use taskmaster::signal::{stop_signal, StopSignal};

fn declared(command: &str, autostart: bool, stopsignal: &str, stoptime: u32) -> TMProgramConfig {
    TMProgramConfig {
        command: command.to_string(),
        args: Vec::new(),
        process: 1,
        autostart,
        autorestart: AutoRestart::UnExpected,
        exit_status: vec![0],
        number_restart: 2,
        health_time: 1,
        stopsignal: stopsignal.to_string(),
        stoptime,
        cwd: None,
        umask: None,
        stdout: None,
        stderr: None,
        env: Vec::new(),
    }
}

fn sample() -> TMConfig {
    TMConfig {
        global: TMGlobalConfig { logfile: "tm.log".to_string() },
        programs: vec![
            ("web".to_string(), declared("/bin/web", true, "TERM", 10)),
            ("cron".to_string(), declared("/bin/cron", false, "INT", 3)),
            ("db".to_string(), declared("/bin/db", true, "QUIT", 30)),
        ],
    }
}

#[test]
fn configuration_is_valid_when_no_name_is_declared_twice() {
    assert!(sample().is_valid());
    assert!(TMConfig { global: TMGlobalConfig { logfile: String::new() }, programs: Vec::new() }.is_valid());
    let mut twice = sample();
    twice.programs.push(("web".to_string(), declared("/bin/other", true, "TERM", 1)));
    assert!(!twice.is_valid());
    let mut adjacent = sample();
    adjacent.programs.insert(1, ("web".to_string(), declared("/bin/other", true, "TERM", 1)));
    assert!(!adjacent.is_valid());
}

#[test]
fn startup_makes_an_entry_for_each_autostart_program() {
    let (registry, actions) = sample().launch_all();
    assert_eq!(registry.len(), 2);
    assert_eq!(registry.issued(), 0);
    assert_eq!(
        *registry.programs(),
        vec![
            TMProgram::new("web".to_string(), declared("/bin/web", true, "TERM", 10)),
            TMProgram::new("db".to_string(), declared("/bin/db", true, "QUIT", 30)),
        ]
    );
    assert_eq!(actions, vec![Action::Spawn { index: 0 }, Action::Spawn { index: 1 }]);
    assert_eq!(registry.get(1).map(|e| e.name.as_str()), Some("db"));
    assert!(registry.get(2).is_none());
}

#[test]
fn after_startup_every_entry_has_a_live_process() {
    let (mut registry, actions) = sample().launch_all();
    for action in &actions {
        match action {
            Action::Spawn { index } => assert_eq!(registry.launched(*index, Some(1000 + *index as u32)), Ok(())),
            other => panic!("unexpected action {:?}", other),
        }
    }
    assert_eq!(registry.issued(), 2);
    let seen = Probe::Alive(ProcMetadata::StatusFile(b"Name:\tx\nUmask:\t0022\nState:\tR (running)\n".to_vec()));
    for (i, entry) in registry.programs().iter().enumerate() {
        assert_eq!(entry.child, Some(ProcessHandle { pid: 1000 + i as u32, serial: i as u64 }));
        assert_eq!(entry.status(&seen), Ok(ProgramStatus::Running(ProgramState::Running)));
    }
}

#[test]
fn startup_with_nothing_to_start() {
    let config = TMConfig {
        global: TMGlobalConfig { logfile: "tm.log".to_string() },
        programs: vec![("cron".to_string(), declared("/bin/cron", false, "INT", 3))],
    };
    let (registry, actions) = config.launch_all();
    assert_eq!(registry.len(), 0);
    assert!(actions.is_empty());
}

#[test]
fn failed_start_leaves_the_entry_without_a_process() {
    let (mut registry, _) = sample().launch_all();
    let before = registry.programs().clone();
    assert_eq!(registry.launched(0, None), Err(CommandError::RuntimeError));
    assert_eq!(*registry.programs(), before);
    assert_eq!(registry.issued(), 0);
    assert_eq!(registry.launched(1, Some(5)), Ok(()));
    assert_eq!(registry.programs()[1].child, Some(ProcessHandle { pid: 5, serial: 0 }));
    assert_eq!(registry.programs()[0].child, None);
}

#[test]
fn start_report_for_a_wrong_place_or_a_running_entry() {
    let (mut registry, _) = sample().launch_all();
    assert_eq!(registry.launched(2, Some(5)), Err(CommandError::WrongIndex));
    assert_eq!(registry.launched(0, Some(5)), Ok(()));
    let before = registry.programs().clone();
    assert_eq!(registry.launched(0, Some(6)), Err(CommandError::RuntimeError));
    assert_eq!(*registry.programs(), before);
    assert_eq!(registry.issued(), 1);
}

#[test]
fn same_pid_twice_gives_two_handles() {
    let (mut registry, _) = sample().launch_all();
    assert_eq!(registry.launched(0, Some(5)), Ok(()));
    assert_eq!(registry.launched(1, Some(5)), Ok(()));
    assert_ne!(registry.programs()[0].child, registry.programs()[1].child);
}

#[test]
fn stop_uses_the_signal_and_the_time_of_the_entry() {
    let (mut registry, _) = sample().launch_all();
    registry.launched(1, Some(77)).unwrap();
    assert_eq!(registry.begin_stop(0, false), Err(CommandError::ProgramNotLaunched));
    assert_eq!(registry.begin_stop(5, false), Err(CommandError::WrongIndex));
    assert_eq!(
        registry.begin_stop(1, true),
        Ok(Action::Stop {
            index: 1,
            handle: ProcessHandle { pid: 77, serial: 0 },
            signal: Some(StopSignal::Quit),
            wait: 30,
            relaunch: true
        })
    );
}

#[test]
fn end_of_a_stop() {
    let (mut registry, _) = sample().launch_all();
    registry.launched(0, Some(77)).unwrap();
    let handle = ProcessHandle { pid: 77, serial: 0 };
    registry.begin_stop(0, false).unwrap();
    let before = registry.programs().clone();
    assert_eq!(registry.stopped(9, handle, true, false), Err(CommandError::WrongIndex));
    assert_eq!(
        registry.stopped(0, ProcessHandle { pid: 77, serial: 1 }, true, false),
        Err(CommandError::ProgramNotLaunched)
    );
    assert_eq!(
        registry.stopped(0, ProcessHandle { pid: 78, serial: 0 }, true, false),
        Err(CommandError::ProgramNotLaunched)
    );
    assert_eq!(registry.stopped(1, handle, true, false), Err(CommandError::ProgramNotLaunched));
    assert_eq!(*registry.programs(), before);
    assert_eq!(registry.stopped(0, handle, true, false), Ok(Action::Done));
    assert_eq!(registry.programs()[0].child, None);
    assert!(!registry.programs()[0].stopping);
    assert_eq!(registry.stopped(0, handle, true, false), Err(CommandError::ProgramNotLaunched));
}

#[test]
fn steps_of_a_stop() {
    assert_eq!(stop_step(5, 0, false), StopStep::Wait);
    assert_eq!(stop_step(5, 4, false), StopStep::Wait);
    assert_eq!(stop_step(5, 5, false), StopStep::Kill);
    assert_eq!(stop_step(5, 6, false), StopStep::Kill);
    assert_eq!(stop_step(0, 0, false), StopStep::Kill);
    assert_eq!(stop_step(5, 0, true), StopStep::Finished);
    assert_eq!(stop_step(5, 9, true), StopStep::Finished);
    assert_eq!(stop_step(u32::MAX, u32::MAX, false), StopStep::Kill);
}

#[test]
fn reload_replaces_the_configuration_and_keeps_the_rest() {
    let (mut registry, _) = sample().launch_all();
    registry.launched(0, Some(10)).unwrap();
    registry.launched(1, Some(11)).unwrap();
    let mut next = sample();
    next.programs[0].1.stoptime = 99;
    next.programs[0].1.autostart = false;
    next.programs.remove(2);
    next.programs.push(("mail".to_string(), declared("/bin/mail", true, "TERM", 1)));
    assert!(registry.reload(Some(next)));
    assert_eq!(registry.len(), 2);
    let web = &registry.programs()[0];
    assert_eq!(web.name, "web");
    assert_eq!(web.config.stoptime, 99);
    assert!(!web.config.autostart);
    assert_eq!(web.child, Some(ProcessHandle { pid: 10, serial: 0 }));
    let db = &registry.programs()[1];
    assert_eq!(db.name, "db");
    assert_eq!(db.config, declared("/bin/db", true, "QUIT", 30));
    assert_eq!(db.child, Some(ProcessHandle { pid: 11, serial: 1 }));
    assert_eq!(registry.issued(), 2);
    assert_eq!(registry.find(&"mail".to_string()), None);
    assert_eq!(registry.find(&"db".to_string()), Some(1));
}

#[test]
fn reload_keeps_the_restart_count() {
    let (mut registry, _) = sample().launch_all();
    registry.launched(0, Some(10)).unwrap();
    let report = registry.sweep(&vec![Some(Probe::Exited { code: Some(1), signal: None })]);
    assert_eq!(report.relaunch, vec![0]);
    let mut next = sample();
    next.programs[0].1.number_restart = 7;
    assert!(registry.reload(Some(next)));
    assert_eq!(registry.programs()[0].restart_count, 1);
    assert_eq!(registry.programs()[0].config.number_restart, 7);
}

#[test]
fn reload_that_fails_is_skipped() {
    let (mut registry, _) = sample().launch_all();
    registry.launched(0, Some(10)).unwrap();
    let before = registry.programs().clone();
    assert!(!registry.reload(None));
    assert_eq!(*registry.programs(), before);
    let mut twice = sample();
    twice.programs[1].0 = "web".to_string();
    twice.programs[0].1.stoptime = 1;
    assert!(!registry.reload(Some(twice)));
    assert_eq!(*registry.programs(), before);
}

#[test]
fn names_of_stop_signals() {
    for (name, signal) in [
        ("HUP", StopSignal::Hup),
        ("INT", StopSignal::Int),
        ("QUIT", StopSignal::Quit),
        ("ABRT", StopSignal::Abrt),
        ("KILL", StopSignal::Kill),
        ("USR1", StopSignal::Usr1),
        ("USR2", StopSignal::Usr2),
        ("ALRM", StopSignal::Alrm),
        ("TERM", StopSignal::Term),
        ("CONT", StopSignal::Cont),
        ("STOP", StopSignal::Stop),
    ] {
        assert_eq!(stop_signal(name), Some(signal), "{}", name);
        assert_eq!(stop_signal(&format!("SIG{}", name)), Some(signal), "SIG{}", name);
    }
}

#[test]
fn names_that_are_no_stop_signal() {
    for name in [
        "", "SIG", "SI", "term", "sigterm", "Term", "SIGterm", "SIGSIGTERM", "TERMS", "TER", " TERM", "TERM ",
        "15", "SIGSEGV", "WINCH", "SIGÉ", "ÉTERM",
    ] {
        assert_eq!(stop_signal(name), None, "{:?}", name);
    }
}

#[test]
fn stop_of_an_entry_whose_signal_is_not_known() {
    let config = TMConfig {
        global: TMGlobalConfig { logfile: "tm.log".to_string() },
        programs: vec![("odd".to_string(), declared("/bin/odd", true, "SIGNOPE", 4))],
    };
    let (mut registry, _) = config.launch_all();
    registry.launched(0, Some(31)).unwrap();
    let handle = ProcessHandle { pid: 31, serial: 0 };
    assert_eq!(
        registry.begin_stop(0, false),
        Ok(Action::Stop { index: 0, handle, signal: None, wait: 4, relaunch: false })
    );
    assert!(registry.programs()[0].stopping);
    assert_eq!(registry.stopped(0, handle, false, false), Err(CommandError::RuntimeError));
    assert_eq!(registry.programs()[0].child, Some(handle));
    assert!(!registry.programs()[0].stopping);
}
