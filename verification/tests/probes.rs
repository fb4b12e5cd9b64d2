use taskmaster::config::{AutoRestart, TMProgramConfig};
use taskmaster::program::{ProcessHandle, TMProgram};
use taskmaster::program_state::{find_state_letter, ProcMetadata, ProgramState, StateError};
use taskmaster::program_status::{Probe, ProgramStatus, StatusError};

fn live() -> TMProgram {
    let config = TMProgramConfig {
        command: "sleep".to_string(),
        args: vec!["100".to_string()],
        process: 1,
        autostart: true,
        autorestart: AutoRestart::Never,
        exit_status: vec![0],
        number_restart: 0,
        health_time: 0,
        stopsignal: "TERM".to_string(),
        stoptime: 1,
        cwd: None,
        umask: None,
        stdout: None,
        stderr: None,
        env: Vec::new(),
    };
    let mut e = TMProgram::new("sleep".to_string(), config);
    e.launch(Some(ProcessHandle { pid: 4242, serial: 0 })).unwrap();
    e
}

fn file(text: &str) -> ProcMetadata {
    ProcMetadata::StatusFile(text.as_bytes().to_vec())
}

#[test]
fn state_letter_of_a_status_file() {
    let text = "Name:\tsleep\nUmask:\t0022\nState:\tS (sleeping)\nTgid:\t4242\nNgid:\t0\n";
    assert_eq!(find_state_letter(text.as_bytes()), Some(b'S'));
    assert_eq!(file(text).read(), Ok(ProgramState::Sleeping));
}

#[test]
fn every_known_letter() {
    for (letter, state) in [
        ('R', ProgramState::Running),
        ('S', ProgramState::Sleeping),
        ('D', ProgramState::DiskSleep),
        ('Z', ProgramState::Zombie),
        ('T', ProgramState::TracingStop),
        ('X', ProgramState::Dead),
    ] {
        assert_eq!(ProgramState::from_letter(letter as u8), state);
        let text = format!("Name:\tx\nUmask:\t0022\nState:\t{} (text)\n", letter);
        assert_eq!(file(&text).read(), Ok(state));
    }
}

#[test]
fn unknown_letters_are_no_error() {
    for letter in [b'I', b't', b'r', b' ', 0u8, 255u8, b'W'] {
        assert_eq!(ProgramState::from_letter(letter), ProgramState::Unknown);
    }
    assert_eq!(file("a\nb\nState:\tI (idle)\n").read(), Ok(ProgramState::Unknown));
}

#[test]
fn status_file_without_a_state() {
    assert_eq!(file("").read(), Err(StateError::UnknownState));
    assert_eq!(file("Name:\tsleep\n").read(), Err(StateError::UnknownState));
    assert_eq!(file("Name:\tsleep\nUmask:\t0022\n").read(), Err(StateError::UnknownState));
    assert_eq!(file("Name:\tsleep\nUmask:\t0022").read(), Err(StateError::UnknownState));
    assert_eq!(file("a\nb\nState:\t").read(), Err(StateError::UnknownState));
    assert_eq!(file("a\nb\nState:\t\nR").read(), Err(StateError::UnknownState));
    assert_eq!(file("a\nb\n\nState:\tR").read(), Err(StateError::UnknownState));
}

#[test]
fn state_letter_at_the_edges() {
    assert_eq!(find_state_letter(b"\n\n1234567R"), Some(b'R'));
    assert_eq!(find_state_letter(b"\n\n1234567R\n"), Some(b'R'));
    assert_eq!(find_state_letter(b"\n\n1234567"), None);
    assert_eq!(find_state_letter(b"\n\n"), None);
    assert_eq!(find_state_letter(b"\n1234567R"), None);
    assert_eq!(find_state_letter(b"x\ny\nState:\tZ"), Some(b'Z'));
}

#[test]
fn structured_state_fields() {
    assert_eq!(ProgramState::from_bsd_status(1), ProgramState::ProcessCreated);
    assert_eq!(ProgramState::from_bsd_status(2), ProgramState::Running);
    assert_eq!(ProgramState::from_bsd_status(3), ProgramState::Sleeping);
    assert_eq!(ProgramState::from_bsd_status(4), ProgramState::Zombie);
    assert_eq!(ProgramState::from_bsd_status(0), ProgramState::Unknown);
    assert_eq!(ProgramState::from_bsd_status(5), ProgramState::Unknown);
    assert_eq!(ProgramState::from_bsd_status(u32::MAX), ProgramState::Unknown);
    assert_eq!(ProcMetadata::BsdStatus(3).read(), Ok(ProgramState::Sleeping));
}

#[test]
fn unreadable_metadata() {
    assert_eq!(ProcMetadata::Unreadable.read(), Err(StateError::Unreadable));
}

#[test]
fn state_of_an_entry() {
    let mut e = live();
    assert_eq!(e.state(&ProcMetadata::BsdStatus(2)), Ok(ProgramState::Running));
    assert_eq!(e.state(&ProcMetadata::Unreadable), Err(StateError::Unreadable));
    assert_eq!(e.state(&file("short")), Err(StateError::UnknownState));
    e.child = None;
    assert_eq!(e.state(&ProcMetadata::BsdStatus(2)), Err(StateError::ProgramNotLaunched));
}

#[test]
fn status_of_an_entry() {
    let e = live();
    assert_eq!(e.status(&Probe::Exited { code: Some(0), signal: None }), Ok(ProgramStatus::Code(0)));
    assert_eq!(e.status(&Probe::Exited { code: Some(-3), signal: Some(9) }), Ok(ProgramStatus::Code(-3)));
    assert_eq!(e.status(&Probe::Exited { code: None, signal: Some(9) }), Ok(ProgramStatus::Signal(9)));
    assert_eq!(e.status(&Probe::Exited { code: None, signal: None }), Err(StatusError::RuntimeError));
    assert_eq!(e.status(&Probe::WaitFailed), Err(StatusError::TryWaitFailed));
    assert_eq!(
        e.status(&Probe::Alive(file("a\nb\nState:\tD (disk sleep)\n"))),
        Ok(ProgramStatus::Running(ProgramState::DiskSleep))
    );
    assert_eq!(e.status(&Probe::Alive(ProcMetadata::Unreadable)), Err(StatusError::StateError));
    assert_eq!(e.status(&Probe::Alive(file("a\n"))), Err(StatusError::StateError));
}

#[test]
fn state_error_becomes_status_error() {
    assert_eq!(StatusError::from(StateError::UnknownState), StatusError::StateError);
    assert_eq!(StatusError::from(StateError::ProgramNotLaunched), StatusError::StateError);
    assert_eq!(StatusError::from(StateError::Unreadable), StatusError::StateError);
}

#[test]
fn names_of_states_and_errors() {
    assert_eq!(ProgramState::Running.name(), "Running");
    assert_eq!(ProgramState::Sleeping.name(), "Sleeping");
    assert_eq!(ProgramState::DiskSleep.name(), "DiskSleep");
    assert_eq!(ProgramState::Zombie.name(), "Zombie");
    assert_eq!(ProgramState::TracingStop.name(), "TracingStop");
    assert_eq!(ProgramState::Dead.name(), "Dead");
    assert_eq!(ProgramState::ProcessCreated.name(), "ProcessCreated");
    assert_eq!(ProgramState::Unknown.name(), "Unknown");
    assert_eq!(StateError::UnknownState.name(), "UnknownState");
    assert_eq!(StateError::ProgramNotLaunched.name(), "ProgramNotLaunched");
    assert_eq!(StateError::Unreadable.name(), "Unreadable");
    assert_eq!(StatusError::TryWaitFailed.name(), "TryWaitFailed");
    assert_eq!(StatusError::StateError.name(), "StateError");
    assert_eq!(StatusError::RuntimeError.name(), "RuntimeError");
}

#[test]
fn renderings() {
    assert_eq!(ProgramStatus::Code(0).render(), "exited with code: 0");
    assert_eq!(ProgramStatus::Code(-1).render(), "exited with code: -1");
    assert_eq!(ProgramStatus::Code(i32::MIN).render(), "exited with code: -2147483648");
    assert_eq!(ProgramStatus::Code(i32::MAX).render(), "exited with code: 2147483647");
    assert_eq!(ProgramStatus::Signal(9).render(), "terminated by signal: 9");
    assert_eq!(ProgramStatus::Running(ProgramState::Zombie).render(), "Zombie");
    assert_eq!(ProgramStatus::Nothing.render(), "not launched");
}

#[test]
fn signal_and_code_render_apart() {
    let by_signal = ProgramStatus::Signal(9).render();
    let by_code = ProgramStatus::Code(0).render();
    let nothing = ProgramStatus::Nothing.render();
    assert_ne!(by_signal, by_code);
    assert_ne!(by_signal, nothing);
    assert_ne!(by_code, nothing);
    assert_ne!(ProgramStatus::Signal(9).render(), ProgramStatus::Code(9).render());
}
