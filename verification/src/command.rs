//! The operator's commands: reading a verb into a command and carrying it out
//! on the registry.
//!
//! A command never touches a process. What it shows comes from the looks at
//! the processes that the caller hands in; what it changes in the outside
//! world it hands back as an [`Action`] for the caller to perform.

use vstd::prelude::*;
use vstd::string::*;
use crate::monitor::probe_at;
use crate::program::TMProgram;
use crate::program_status::{Probe, ProgramStatus};
use crate::registry::{Action, Registry, RegistryView};
use crate::text::{natural, push_natural, same_text};

verus! {

/// A command of the operator. The number names an entry by its place in the registry.
#[derive(Debug, Clone, Copy, PartialEq, Eq, Structural)]
pub enum CommandUser {
    /// Show the status of every entry.
    List,
    /// Stop the process of an entry.
    Kill(u32),
    /// Stop the process of an entry, if there is one, and start it again.
    Restart(u32),
    /// Start the program of an entry that has no process.
    Launch(u32),
    /// Show the status of one entry.
    Status(u32),
    /// Show the commands.
    Help,
    /// Leave the command loop.
    Exit,
}

/// Why a command was not read or not carried out.
#[derive(Debug, Clone, Copy, PartialEq, Eq, Structural)]
pub enum CommandError {
    /// The entry has no process.
    ProgramNotLaunched,
    /// No entry stands at that place in the registry.
    WrongIndex,
    /// The verb is none of the commands.
    UnknownCommand,
    /// The command needs a number and none was given.
    MissingParams,
    /// Starting or signalling a process failed, or a status could not be determined.
    RuntimeError,
}

/// What a command answers: lines for the operator and the action that the
/// caller has to perform.
#[derive(Debug, Clone, PartialEq, Eq)]
pub struct Reply {
    /// Lines for the standard output.
    pub out: Vec<String>,
    /// Lines for the standard error.
    pub err: Vec<String>,
    /// What the caller has to do next.
    pub action: Action,
}

/// A reply as a value.
pub struct ReplyView {
    /// The lines for the standard output.
    pub out: Seq<Seq<char>>,
    /// The lines for the standard error.
    pub err: Seq<Seq<char>>,
    /// What the caller has to do next.
    pub action: Action,
}

impl View for Reply {
    type V = ReplyView;

    open spec fn view(&self) -> ReplyView {
        ReplyView { out: self.out.deep_view(), err: self.err.deep_view(), action: self.action }
    }
}

impl ReplyView {
    /// The reply that shows nothing and asks for `action`.
    pub open spec fn act(action: Action) -> ReplyView {
        ReplyView { out: Seq::empty(), err: Seq::empty(), action }
    }

    /// The reply that shows one line and asks for nothing.
    pub open spec fn say(line: Seq<char>) -> ReplyView {
        ReplyView { out: seq![line], err: Seq::empty(), action: Action::Done }
    }

    /// The reply that shows one line on the standard error and asks for nothing.
    pub open spec fn warn(line: Seq<char>) -> ReplyView {
        ReplyView { out: Seq::empty(), err: seq![line], action: Action::Done }
    }
}

impl Reply {
    fn act(action: Action) -> (r: Reply)
        ensures
            r@ == ReplyView::act(action),
    {
        let r = Reply { out: Vec::new(), err: Vec::new(), action };
        assert(r.out.deep_view() =~= Seq::empty());
        assert(r.err.deep_view() =~= Seq::empty());
        r
    }

    fn say(line: String) -> (r: Reply)
        ensures
            r@ == ReplyView::say(line@),
    {
        let mut out: Vec<String> = Vec::new();
        out.push(line);
        let r = Reply { out, err: Vec::new(), action: Action::Done };
        assert(r.out.deep_view() =~= seq![line@]);
        assert(r.err.deep_view() =~= Seq::empty());
        r
    }

    fn warn(line: String) -> (r: Reply)
        ensures
            r@ == ReplyView::warn(line@),
    {
        let mut err: Vec<String> = Vec::new();
        err.push(line);
        let r = Reply { out: Vec::new(), err, action: Action::Done };
        assert(r.err.deep_view() =~= seq![line@]);
        assert(r.out.deep_view() =~= Seq::empty());
        r
    }
}

/// Whether an answer is the one that the model gives: the same error, or a
/// reply with the same lines and the same action.
pub open spec fn answers(r: Result<Reply, CommandError>, model: Result<ReplyView, CommandError>) -> bool {
    match (r, model) {
        (Ok(reply), Ok(view)) => reply@ == view,
        (Err(e), Err(f)) => e == f,
        _ => false,
    }
}

/// The answer that asks for the action of a lifecycle decision, or carries its error.
pub open spec fn acting(decision: Result<Action, CommandError>) -> Result<ReplyView, CommandError> {
    match decision {
        Ok(action) => Ok(ReplyView::act(action)),
        Err(e) => Err(e),
    }
}

impl CommandError {
    /// The name of the error, as it is shown to the operator.
    pub open spec fn label(self) -> Seq<char> {
        match self {
            CommandError::ProgramNotLaunched => "ProgramNotLaunched"@,
            CommandError::WrongIndex => "WrongIndex"@,
            CommandError::UnknownCommand => "UnknownCommand"@,
            CommandError::MissingParams => "MissingParams"@,
            CommandError::RuntimeError => "RuntimeError"@,
        }
    }

    /// The name of the error, as it is shown to the operator.
    pub fn name(&self) -> (r: &'static str)
        ensures
            r@ == self.label(),
    {
        match self {
            CommandError::ProgramNotLaunched => "ProgramNotLaunched",
            CommandError::WrongIndex => "WrongIndex",
            CommandError::UnknownCommand => "UnknownCommand",
            CommandError::MissingParams => "MissingParams",
            CommandError::RuntimeError => "RuntimeError",
        }
    }
}

/// The text that `help` shows.
pub open spec fn help_text() -> Seq<char> {
    "Available commands: exit, help, list, kill [ID], launch [ID], restart [ID], status [ID]"@
}

/// The line that `launch` shows for an entry that has a process.
pub open spec fn already_launched_text() -> Seq<char> {
    "program already launched"@
}

/// The first line of a listing of `count` entries.
pub open spec fn list_header(count: nat) -> Seq<char> {
    natural(count) + " program(s) under supervision"@
}

/// The line that a listing logs for an entry whose status was not determined.
pub open spec fn list_error_line(name: Seq<char>, error: CommandError) -> Seq<char> {
    "fetching status for ["@ + name + "] raised error "@ + error.label()
}

impl TMProgram {
    /// How a status of the entry is shown. An entry that the restart policy
    /// has given up shows so in place of the plain word for an entry without a
    /// process.
    pub open spec fn shown(self, status: ProgramStatus) -> Seq<char> {
        if status is Nothing && self.failed {
            "not launched (restart limit reached)"@
        } else {
            status.rendering()
        }
    }

    /// The status line of the entry under what was seen of its process: the
    /// name, an arrow and the status. There is none where the entry has a
    /// process and its status was not determined.
    pub open spec fn status_line(self, probe: Option<Probe>) -> Result<Seq<char>, CommandError> {
        if self.child is Some && probe is None {
            Err(CommandError::RuntimeError)
        } else {
            match self.status_of(probe.unwrap()) {
                Ok(status) => Ok(self.name@ + " => "@ + self.shown(status)),
                Err(_) => Err(CommandError::RuntimeError),
            }
        }
    }
}

/// The lines that a listing shows for the first `n` entries, the header included.
pub open spec fn list_out(entries: Seq<TMProgram>, probes: Seq<Option<Probe>>, n: int) -> Seq<Seq<char>>
    decreases n,
{
    if n <= 0 {
        seq![list_header(entries.len())]
    } else {
        let before = list_out(entries, probes, n - 1);
        match entries[n - 1].status_line(probe_at(probes, n - 1)) {
            Ok(line) => before.push(line),
            Err(_) => before,
        }
    }
}

/// The lines that a listing logs for the first `n` entries.
pub open spec fn list_err(entries: Seq<TMProgram>, probes: Seq<Option<Probe>>, n: int) -> Seq<Seq<char>>
    decreases n,
{
    if n <= 0 {
        Seq::empty()
    } else {
        let before = list_err(entries, probes, n - 1);
        match entries[n - 1].status_line(probe_at(probes, n - 1)) {
            Ok(_) => before,
            Err(e) => before.push(list_error_line(entries[n - 1].name@, e)),
        }
    }
}

/// What one turn of the command loop leaves: the registry, the running flag
/// and the answer of the command, or no answer where the command was not
/// carried out.
pub struct Turn {
    /// The registry after the turn.
    pub registry: RegistryView,
    /// The running flag after the turn.
    pub running: bool,
    /// The answer of the command; `None` where it was not carried out.
    pub result: Option<Result<ReplyView, CommandError>>,
}

/// Whether what a turn hands back is what the model gives: nothing, or the
/// same answer.
pub open spec fn turn_answers(
    r: Option<Result<Reply, CommandError>>,
    model: Option<Result<ReplyView, CommandError>>,
) -> bool {
    match (r, model) {
        (Some(answer), Some(expected)) => answers(answer, expected),
        (None, None) => true,
        _ => false,
    }
}

/// What carrying out a command leaves: the registry, the running flag and the answer.
pub struct Outcome {
    /// The registry after the command.
    pub registry: RegistryView,
    /// The running flag after the command.
    pub running: bool,
    /// The answer of the command.
    pub result: Result<ReplyView, CommandError>,
}

impl RegistryView {
    /// The answer to `list`.
    pub open spec fn listed(self, probes: Seq<Option<Probe>>) -> ReplyView {
        ReplyView {
            out: list_out(self.entries, probes, self.entries.len() as int),
            err: list_err(self.entries, probes, self.entries.len() as int),
            action: Action::Done,
        }
    }

    /// The answer to `status`.
    pub open spec fn status_shown(self, index: int, probes: Seq<Option<Probe>>) -> Result<
        ReplyView,
        CommandError,
    > {
        if !self.has(index) {
            Err(CommandError::WrongIndex)
        } else {
            match self.entries[index].status_line(probe_at(probes, index)) {
                Ok(line) => Ok(ReplyView::say(line)),
                Err(e) => Err(e),
            }
        }
    }

    /// The registry after `kill`, and the answer.
    pub open spec fn killed(self, index: int) -> (RegistryView, Result<ReplyView, CommandError>) {
        (self.stop_begun(index, false).0, acting(self.stop_begun(index, false).1))
    }

    /// The registry after `launch`, and the answer.
    pub open spec fn launch_asked(self, index: int) -> (RegistryView, Result<ReplyView, CommandError>) {
        match self.launch_planned(index).1 {
            Ok(Action::Done) => (self, Ok(ReplyView::warn(already_launched_text()))),
            _ => (self.launch_planned(index).0, acting(self.launch_planned(index).1)),
        }
    }

    /// The registry after `restart`, and the answer. An entry without a
    /// process is started as by `launch`.
    pub open spec fn restart_asked(self, index: int) -> (RegistryView, Result<ReplyView, CommandError>) {
        match self.stop_begun(index, true).1 {
            Err(CommandError::ProgramNotLaunched) => self.launch_asked(index),
            _ => (self.stop_begun(index, true).0, acting(self.stop_begun(index, true).1)),
        }
    }
}

impl CommandUser {
    /// The command that a verb and its number stand for. `list`, `exit` and
    /// `help` take no number and ignore one. `kill`, `restart`, `launch` and
    /// `status` need one: without it they are `MissingParams`. Any other verb
    /// is `UnknownCommand`.
    pub open spec fn parsed(verb: Seq<char>, index: Option<u32>) -> Result<CommandUser, CommandError> {
        if verb == "list"@ {
            Ok(CommandUser::List)
        } else if verb == "exit"@ {
            Ok(CommandUser::Exit)
        } else if verb == "help"@ {
            Ok(CommandUser::Help)
        } else if verb == "kill"@ {
            match index {
                Some(i) => Ok(CommandUser::Kill(i)),
                None => Err(CommandError::MissingParams),
            }
        } else if verb == "restart"@ {
            match index {
                Some(i) => Ok(CommandUser::Restart(i)),
                None => Err(CommandError::MissingParams),
            }
        } else if verb == "launch"@ {
            match index {
                Some(i) => Ok(CommandUser::Launch(i)),
                None => Err(CommandError::MissingParams),
            }
        } else if verb == "status"@ {
            match index {
                Some(i) => Ok(CommandUser::Status(i)),
                None => Err(CommandError::MissingParams),
            }
        } else {
            Err(CommandError::UnknownCommand)
        }
    }

    /// Reads a verb and its number, if one was given, into a command.
    pub fn try_from(value: (&str, Option<u32>)) -> (r: Result<CommandUser, CommandError>)
        ensures
            r == CommandUser::parsed(value.0@, value.1),
    {
        let (verb, index) = value;
        if same_text(verb, "list") {
            Ok(CommandUser::List)
        } else if same_text(verb, "exit") {
            Ok(CommandUser::Exit)
        } else if same_text(verb, "help") {
            Ok(CommandUser::Help)
        } else if same_text(verb, "kill") {
            match index {
                Some(i) => Ok(CommandUser::Kill(i)),
                None => Err(CommandError::MissingParams),
            }
        } else if same_text(verb, "restart") {
            match index {
                Some(i) => Ok(CommandUser::Restart(i)),
                None => Err(CommandError::MissingParams),
            }
        } else if same_text(verb, "launch") {
            match index {
                Some(i) => Ok(CommandUser::Launch(i)),
                None => Err(CommandError::MissingParams),
            }
        } else if same_text(verb, "status") {
            match index {
                Some(i) => Ok(CommandUser::Status(i)),
                None => Err(CommandError::MissingParams),
            }
        } else {
            Err(CommandError::UnknownCommand)
        }
    }

    /// Whether the command shows a status, so that the caller has to look at
    /// the processes before it carries the command out.
    pub fn wants_probes(&self) -> (r: bool)
        ensures
            r == (*self is List || *self is Status),
    {
        match self {
            CommandUser::List => true,
            CommandUser::Status(_) => true,
            _ => false,
        }
    }

    /// Writes the status line of an entry from what was just seen of its
    /// process (`None`: nothing was seen). It fails with `RuntimeError` where
    /// the entry has a process and its status was not determined.
    pub fn display_status(program: &TMProgram, probe: &Option<Probe>) -> (r: Result<String, CommandError>)
        ensures
            match r {
                Ok(line) => program.status_line(*probe) == Ok::<Seq<char>, CommandError>(line@),
                Err(e) => program.status_line(*probe) == Err::<Seq<char>, CommandError>(e),
            },
    {
        let status = if program.child.is_none() {
            ProgramStatus::Nothing
        } else {
            match probe {
                None => {
                    return Err(CommandError::RuntimeError);
                },
                Some(seen) => match program.status(seen) {
                    Ok(status) => status,
                    Err(_) => {
                        return Err(CommandError::RuntimeError);
                    },
                },
            }
        };
        let mut line = program.name.clone();
        line.append(" => ");
        match status {
            ProgramStatus::Nothing => {
                if program.failed {
                    line.append("not launched (restart limit reached)");
                } else {
                    line.append("not launched");
                }
            },
            _ => {
                let shown = status.render();
                line.append(shown.as_str());
            },
        }
        Ok(line)
    }

    /// Shows the status of every entry: a header with the number of entries,
    /// then one status line for each entry whose status was determined, in the
    /// order of the entries. An entry whose status was not determined gets a
    /// line on the standard error instead, and the listing goes on.
    pub fn list_childs(registry: &Registry, probes: &Vec<Option<Probe>>) -> (r: Reply)
        ensures
            r@ == registry@.listed(probes@),
    {
        let nothing: Option<Probe> = None;
        let programs = registry.programs();
        let n = programs.len();
        let mut out: Vec<String> = Vec::new();
        let mut err: Vec<String> = Vec::new();
        let mut header = String::new();
        push_natural(&mut header, n as u64);
        header.append(" program(s) under supervision");
        out.push(header);
        assert(out.deep_view() =~= list_out(programs@, probes@, 0));
        assert(err.deep_view() =~= list_err(programs@, probes@, 0));
        let mut i: usize = 0;
        while i < n
            invariant
                i <= n,
                n == programs@.len(),
                nothing is None,
                out.deep_view() == list_out(programs@, probes@, i as int),
                err.deep_view() == list_err(programs@, probes@, i as int),
            decreases n - i,
        {
            let probe = if i < probes.len() {
                &probes[i]
            } else {
                &nothing
            };
            assert(*probe == probe_at(probes@, i as int));
            let ghost shown = out.deep_view();
            let ghost logged = err.deep_view();
            match CommandUser::display_status(&programs[i], probe) {
                Ok(line) => {
                    out.push(line);
                    assert(out.deep_view() =~= shown.push(line@));
                },
                Err(e) => {
                    let mut line = "fetching status for [".to_owned();
                    line.append(programs[i].name.as_str());
                    line.append("] raised error ");
                    line.append(e.name());
                    err.push(line);
                    assert(err.deep_view() =~= logged.push(
                        list_error_line(programs@[i as int].name@, e),
                    ));
                },
            }
            i += 1;
        }
        Reply { out, err, action: Action::Done }
    }

    /// Shows the status of the entry at `idx`. It fails with `WrongIndex` where
    /// no entry stands there, and with `RuntimeError` where the status was not
    /// determined.
    pub fn status_child(registry: &Registry, idx: u32, probes: &Vec<Option<Probe>>) -> (r: Result<
        Reply,
        CommandError,
    >)
        ensures
            answers(r, registry@.status_shown(idx as int, probes@)),
    {
        let nothing: Option<Probe> = None;
        let index = idx as usize;
        match registry.get(index) {
            None => Err(CommandError::WrongIndex),
            Some(program) => {
                let probe = if index < probes.len() {
                    &probes[index]
                } else {
                    &nothing
                };
                match CommandUser::display_status(program, probe) {
                    Ok(line) => Ok(Reply::say(line)),
                    Err(e) => Err(e),
                }
            },
        }
    }

    /// Begins the stop of the entry at `idx`, as [`Registry::begin_stop`] says.
    pub fn kill_child(registry: &mut Registry, idx: u32) -> (r: Result<Reply, CommandError>)
        requires
            old(registry)@.wf(),
        ensures
            final(registry)@ == old(registry)@.killed(idx as int).0,
            answers(r, old(registry)@.killed(idx as int).1),
            final(registry)@.wf(),
    {
        match registry.begin_stop(idx as usize, false) {
            Ok(action) => Ok(Reply::act(action)),
            Err(e) => Err(e),
        }
    }

    /// Decides on starting the entry at `idx`, as [`Registry::plan_launch`]
    /// says. For an entry that has a process the answer is a line that says so.
    pub fn launch_child(registry: &mut Registry, idx: u32) -> (r: Result<Reply, CommandError>)
        requires
            old(registry)@.wf(),
        ensures
            final(registry)@ == old(registry)@.launch_asked(idx as int).0,
            answers(r, old(registry)@.launch_asked(idx as int).1),
            final(registry)@.wf(),
    {
        match registry.plan_launch(idx as usize) {
            Ok(Action::Done) => Ok(Reply::warn("program already launched".to_owned())),
            Ok(action) => Ok(Reply::act(action)),
            Err(e) => Err(e),
        }
    }

    /// Begins the restart of the entry at `idx`: the stop of its process, after
    /// which the program is started again. An entry without a process is
    /// started as by `launch`.
    pub fn restart_child(registry: &mut Registry, idx: u32) -> (r: Result<Reply, CommandError>)
        requires
            old(registry)@.wf(),
        ensures
            final(registry)@ == old(registry)@.restart_asked(idx as int).0,
            answers(r, old(registry)@.restart_asked(idx as int).1),
            final(registry)@.wf(),
    {
        match registry.begin_stop(idx as usize, true) {
            Ok(action) => Ok(Reply::act(action)),
            Err(CommandError::ProgramNotLaunched) => CommandUser::launch_child(registry, idx),
            Err(e) => Err(e),
        }
    }

    /// Shows the commands.
    pub fn display_help() -> (r: Reply)
        ensures
            r@ == ReplyView::say(help_text()),
    {
        Reply::say(
            "Available commands: exit, help, list, kill [ID], launch [ID], restart [ID], status [ID]".to_owned(),
        )
    }

    /// What carrying out the command leaves. `exit` clears the running flag
    /// and does nothing else; every other command leaves the flag as it was
    /// and answers the same whatever the flag holds.
    pub open spec fn outcome(
        self,
        registry: RegistryView,
        running: bool,
        probes: Seq<Option<Probe>>,
    ) -> Outcome {
        match self {
            CommandUser::Exit => Outcome { registry, running: false, result: Ok(ReplyView::act(Action::Done)) },
            CommandUser::Help => Outcome { registry, running, result: Ok(ReplyView::say(help_text())) },
            CommandUser::List => Outcome { registry, running, result: Ok(registry.listed(probes)) },
            CommandUser::Status(idx) => Outcome {
                registry,
                running,
                result: registry.status_shown(idx as int, probes),
            },
            CommandUser::Kill(idx) => Outcome {
                registry: registry.killed(idx as int).0,
                running,
                result: registry.killed(idx as int).1,
            },
            CommandUser::Launch(idx) => Outcome {
                registry: registry.launch_asked(idx as int).0,
                running,
                result: registry.launch_asked(idx as int).1,
            },
            CommandUser::Restart(idx) => Outcome {
                registry: registry.restart_asked(idx as int).0,
                running,
                result: registry.restart_asked(idx as int).1,
            },
        }
    }

    /// What one turn of the command loop leaves when `self` is the command
    /// that was read: the command is carried out while the running flag is
    /// set, and is not carried out once the flag is cleared.
    pub open spec fn turn(self, registry: RegistryView, running: bool, probes: Seq<Option<Probe>>) -> Turn {
        if running {
            Turn {
                registry: self.outcome(registry, running, probes).registry,
                running: self.outcome(registry, running, probes).running,
                result: Some(self.outcome(registry, running, probes).result),
            }
        } else {
            Turn { registry, running: false, result: None }
        }
    }

    /// Carries out the command on the registry. `running` is the flag that
    /// keeps the command loop going; `exit` clears it and does nothing else,
    /// and no other command reads or changes it. `probes` holds what was just
    /// seen of the process of each entry, in the order of the entries; only
    /// `list` and `status` read it.
    pub fn exec(
        &self,
        registry: &mut Registry,
        running: &mut bool,
        probes: &Vec<Option<Probe>>,
    ) -> (r: Result<Reply, CommandError>)
        requires
            old(registry)@.wf(),
        ensures
            final(registry)@ == self.outcome(old(registry)@, *old(running), probes@).registry,
            *final(running) == self.outcome(old(registry)@, *old(running), probes@).running,
            answers(r, self.outcome(old(registry)@, *old(running), probes@).result),
            final(registry)@.wf(),
    {
        match self {
            CommandUser::Exit => {
                *running = false;
                Ok(Reply::act(Action::Done))
            },
            CommandUser::List => Ok(CommandUser::list_childs(registry, probes)),
            CommandUser::Status(idx) => CommandUser::status_child(registry, *idx, probes),
            CommandUser::Kill(idx) => CommandUser::kill_child(registry, *idx),
            CommandUser::Launch(idx) => CommandUser::launch_child(registry, *idx),
            CommandUser::Restart(idx) => CommandUser::restart_child(registry, *idx),
            CommandUser::Help => Ok(CommandUser::display_help()),
        }
    }
}

/// One turn of the command loop, for the command that was just read. While
/// the running flag is set the command is carried out, as [`CommandUser::exec`]
/// says, and its answer is handed back. Once the flag is cleared no command is
/// carried out any more: the registry and the flag stay as they are and there
/// is no answer, which tells the loop to end.
pub fn dispatch(
    command: &CommandUser,
    registry: &mut Registry,
    running: &mut bool,
    probes: &Vec<Option<Probe>>,
) -> (r: Option<Result<Reply, CommandError>>)
    requires
        old(registry)@.wf(),
    ensures
        final(registry)@ == command.turn(old(registry)@, *old(running), probes@).registry,
        *final(running) == command.turn(old(registry)@, *old(running), probes@).running,
        turn_answers(r, command.turn(old(registry)@, *old(running), probes@).result),
        !*old(running) ==> r is None && final(registry)@ == old(registry)@ && !*final(running),
        *old(running) ==> r is Some,
        final(registry)@.wf(),
{
    if *running {
        Some(command.exec(registry, running, probes))
    } else {
        None
    }
}

} // verus!
