//! The configuration that the supervisor is handed: a global section and the
//! declared programs, each under its name.

use vstd::prelude::*;
use crate::program::TMProgram;
use crate::registry::{Action, Registry};

verus! {

/// When an exited program is started again without the operator asking.
#[derive(Debug, Clone, Copy, PartialEq, Eq, Structural)]
pub enum AutoRestart {
    /// After every exit, whatever its cause.
    Always,
    /// Never.
    Never,
    /// Only after an exit whose code is not among the expected ones.
    UnExpected,
}

/// Settings of the supervisor itself.
#[derive(Debug, Clone, PartialEq, Eq)]
pub struct TMGlobalConfig {
    /// Path where the log is written.
    pub logfile: String,
}

/// How one program is started, stopped and restarted.
#[derive(Debug, Clone, PartialEq, Eq)]
pub struct TMProgramConfig {
    /// The executable: a name that is looked up in the search path, or a full path.
    pub command: String,
    /// Arguments handed to the executable.
    pub args: Vec<String>,
    /// Number of processes to run.
    pub process: u32,
    /// Whether the program is started when the supervisor starts.
    pub autostart: bool,
    /// When the program is started again after it exited.
    pub autorestart: AutoRestart,
    /// Exit codes that count as expected.
    pub exit_status: Vec<i32>,
    /// How many restarts are attempted before the program is given up.
    pub number_restart: u32,
    /// Seconds that the program has to stay up to count as started.
    pub health_time: u32,
    /// Name of the signal that asks the program to stop.
    pub stopsignal: String,
    /// Seconds granted to the program between the stop signal and a forced kill.
    pub stoptime: u32,
    /// Working directory of the program; the supervisor's own when absent.
    pub cwd: Option<String>,
    /// File mode creation mask of the program.
    pub umask: Option<i32>,
    /// File that receives the program's standard output; a pipe when absent.
    pub stdout: Option<String>,
    /// File that receives the program's standard error; a pipe when absent.
    pub stderr: Option<String>,
    /// Environment variables set for the program, over the supervisor's own.
    pub env: Vec<(String, String)>,
}

impl TMProgramConfig {
    /// Whether an exit with `code` counts as expected.
    pub open spec fn expects(self, code: i32) -> bool {
        self.exit_status@.contains(code)
    }

    /// Whether an exit with `code` counts as expected.
    pub fn is_expected(&self, code: i32) -> (r: bool)
        ensures
            r == self.expects(code),
    {
        let mut i: usize = 0;
        while i < self.exit_status.len()
            invariant
                i <= self.exit_status.len(),
                forall|k: int| 0 <= k < i ==> self.exit_status@[k] != code,
            decreases self.exit_status.len() - i,
        {
            if self.exit_status[i] == code {
                return true;
            }
            i += 1;
        }
        false
    }
}

/// Whether no name is declared twice.
pub open spec fn names_distinct(programs: Seq<(String, TMProgramConfig)>) -> bool {
    forall|i: int, j: int|
        0 <= i < j < programs.len() ==> (#[trigger] programs[i]).0@ != (#[trigger] programs[j]).0@
}

/// Where `name` is declared: the first declaration under that name.
pub open spec fn position(programs: Seq<(String, TMProgramConfig)>, name: Seq<char>) -> Option<int>
    decreases programs.len(),
{
    if programs.len() == 0 {
        None
    } else {
        match position(programs.drop_last(), name) {
            Some(k) => Some(k),
            None => if programs.last().0@ == name {
                Some(programs.len() - 1)
            } else {
                None
            },
        }
    }
}

/// `position` finds the least index that carries the name, and nothing where
/// no index carries it.
pub proof fn position_is_first(programs: Seq<(String, TMProgramConfig)>, name: Seq<char>)
    ensures
        match position(programs, name) {
            Some(k) => 0 <= k < programs.len() && programs[k].0@ == name && forall|j: int|
                0 <= j < k ==> (#[trigger] programs[j]).0@ != name,
            None => forall|j: int| 0 <= j < programs.len() ==> (#[trigger] programs[j]).0@ != name,
        },
    decreases programs.len(),
{
    if programs.len() > 0 {
        let front = programs.drop_last();
        position_is_first(front, name);
        assert(forall|j: int| 0 <= j < front.len() ==> front[j] == programs[j]);
        match position(front, name) {
            Some(k) => {
                assert(front[k] == programs[k]);
                assert forall|j: int| 0 <= j < k implies (#[trigger] programs[j]).0@ != name by {
                    assert(front[j] == programs[j]);
                }
            },
            None => {
                assert forall|j: int| 0 <= j < programs.len() - 1 implies (#[trigger] programs[j]).0@
                    != name by {
                    assert(front[j] == programs[j]);
                }
            },
        }
    }
}

/// The entries that the first `n` declarations give at startup: one for each
/// program that starts with the supervisor, in the order of the declarations.
pub open spec fn autostart_entries(programs: Seq<(String, TMProgramConfig)>, n: int) -> Seq<TMProgram>
    decreases n,
{
    if n <= 0 {
        Seq::empty()
    } else {
        let before = autostart_entries(programs, n - 1);
        if programs[n - 1].1.autostart {
            before.push(TMProgram::fresh(programs[n - 1].0, programs[n - 1].1))
        } else {
            before
        }
    }
}

/// The whole configuration: the global section and the declared programs, in
/// the order in which they are supervised.
#[derive(Debug, Clone, PartialEq, Eq)]
pub struct TMConfig {
    /// Settings of the supervisor itself.
    pub global: TMGlobalConfig,
    /// The declared programs, each under its name.
    pub programs: Vec<(String, TMProgramConfig)>,
}

impl TMConfig {
    /// A configuration is well formed when no name is declared twice.
    pub open spec fn wf(self) -> bool {
        names_distinct(self.programs@)
    }

    /// Whether the configuration is well formed.
    pub fn is_valid(&self) -> (r: bool)
        ensures
            r == self.wf(),
    {
        let n = self.programs.len();
        let mut j: usize = 0;
        while j < n
            invariant
                j <= n,
                n == self.programs.len(),
                names_distinct(self.programs@.take(j as int)),
            decreases n - j,
        {
            let mut i: usize = 0;
            while i < j
                invariant
                    i <= j < n,
                    n == self.programs.len(),
                    forall|k: int|
                        0 <= k < i ==> (#[trigger] self.programs@[k]).0@ != self.programs@[j as int].0@,
                decreases j - i,
            {
                if self.programs[i].0 == self.programs[j].0 {
                    return false;
                }
                i += 1;
            }
            proof {
                let before = self.programs@.take(j as int);
                let after = self.programs@.take(j + 1);
                assert forall|a: int, b: int| 0 <= a < b < after.len() implies (#[trigger] after[a]).0@
                    != (#[trigger] after[b]).0@ by {
                    if b < j {
                        assert(before[a] == after[a]);
                        assert(before[b] == after[b]);
                    }
                }
            }
            j += 1;
        }
        assert(self.programs@.take(n as int) =~= self.programs@);
        true
    }

    /// Builds the registry for startup: an entry for each program that starts
    /// with the supervisor, in the order of the declarations, none of them with
    /// a process yet. The actions start the program of each entry, in order.
    pub fn launch_all(self) -> (r: (Registry, Vec<Action>))
        requires
            self.wf(),
        ensures
            r.0@.entries == autostart_entries(self.programs@, self.programs@.len() as int),
            r.0@.issued == 0,
            r.0@.wf(),
            r.1@ == Seq::new(r.0@.entries.len(), |i: int| Action::Spawn { index: i as usize }),
    {
        let ghost declared = self.programs@;
        let mut registry = Registry::new();
        let mut actions: Vec<Action> = Vec::new();
        for program in it: self.programs.into_iter()
            invariant
                it.seq() == declared,
                names_distinct(declared),
                registry.issued == 0,
                registry.programs@ == autostart_entries(declared, it.index() as int),
                actions@ == Seq::new(registry.programs@.len(), |i: int| Action::Spawn { index: i as usize }),
                forall|i: int|
                    0 <= i < registry.programs@.len() ==> (#[trigger] registry.programs@[i]).child is None,
                forall|i: int|
                    0 <= i < registry.programs@.len() ==> (#[trigger] registry.programs@[i]).wf(),
                forall|i: int, j: int|
                    0 <= i < registry.programs@.len() && it.index() <= j < declared.len() ==> (
                    #[trigger] registry.programs@[i]).name@ != (#[trigger] declared[j]).0@,
                forall|i: int, j: int|
                    0 <= i < j < registry.programs@.len() ==> (#[trigger] registry.programs@[i]).name@ != (
                    #[trigger] registry.programs@[j]).name@,
        {
            let (name, config) = program;
            if config.autostart {
                let index = registry.programs.len();
                registry.programs.push(TMProgram::new(name, config));
                actions.push(Action::Spawn { index });
                assert(actions@ =~= Seq::new(
                    registry.programs@.len(),
                    |i: int| Action::Spawn { index: i as usize },
                ));
            }
        }
        (registry, actions)
    }
}

} // verus!
