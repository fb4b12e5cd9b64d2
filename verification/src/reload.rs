//! Taking a new configuration into the running registry.
//!
//! An entry whose name the new configuration declares gets the configuration
//! declared under that name; its process and its restart bookkeeping stay.
//! An entry whose name the new configuration no longer declares stays as it
//! is, process included, until the supervisor ends. A program that only the
//! new configuration declares gets no entry: entries are made at startup.

use vstd::prelude::*;
use crate::config::{names_distinct, position, position_is_first, TMConfig, TMProgramConfig};
use crate::program::TMProgram;
use crate::registry::{Registry, RegistryView};

verus! {

impl TMProgram {
    /// The entry under a new list of declarations: with the configuration
    /// declared under its name, or unchanged where its name is not declared.
    pub open spec fn reloaded(self, programs: Seq<(String, TMProgramConfig)>) -> TMProgram {
        match position(programs, self.name@) {
            Some(k) => TMProgram { config: programs[k].1, ..self },
            None => self,
        }
    }
}

impl RegistryView {
    /// The registry under a new list of declarations.
    pub open spec fn reloaded(self, programs: Seq<(String, TMProgramConfig)>) -> RegistryView {
        RegistryView {
            entries: Seq::new(self.entries.len(), |i: int| self.entries[i].reloaded(programs)),
            ..self
        }
    }
}

/// Where a list of declarations grows by one, an entry named like the new
/// declaration and not declared before takes the new configuration, and every
/// other entry is as under the shorter list.
proof fn reloaded_step(entry: TMProgram, programs: Seq<(String, TMProgramConfig)>, k: int)
    requires
        0 <= k < programs.len(),
        names_distinct(programs),
    ensures
        entry.name@ == programs[k].0@ ==> entry.reloaded(programs.take(k + 1)) == (TMProgram {
            config: programs[k].1,
            ..entry
        }),
        entry.name@ != programs[k].0@ ==> entry.reloaded(programs.take(k + 1)) == entry.reloaded(
            programs.take(k),
        ),
{
    let shorter = programs.take(k);
    let longer = programs.take(k + 1);
    assert(longer.drop_last() =~= shorter);
    assert(longer.last() == programs[k]);
    position_is_first(shorter, entry.name@);
    if entry.name@ == programs[k].0@ {
        if position(shorter, entry.name@) is Some {
            let j = position(shorter, entry.name@).unwrap();
            assert(shorter[j] == programs[j]);
            assert(programs[j].0@ != programs[k].0@);
        }
    } else {
        if position(shorter, entry.name@) is Some {
            let j = position(shorter, entry.name@).unwrap();
            assert(shorter[j] == longer[j]);
        }
    }
}

impl Registry {
    /// The place of the first entry with the given name, if there is one.
    pub fn find(&self, name: &String) -> (r: Option<usize>)
        ensures
            match r {
                Some(i) => self@.has(i as int) && self@.entries[i as int].name@ == name@ && forall|k: int|
                    0 <= k < i ==> (#[trigger] self@.entries[k]).name@ != name@,
                None => forall|i: int| self@.has(i) ==> (#[trigger] self@.entries[i]).name@ != name@,
            },
    {
        let mut i: usize = 0;
        while i < self.programs.len()
            invariant
                i <= self.programs@.len(),
                forall|k: int| 0 <= k < i ==> (#[trigger] self.programs@[k]).name@ != name@,
            decreases self.programs@.len() - i,
        {
            if self.programs[i].name == *name {
                return Some(i);
            }
            i += 1;
        }
        None
    }

    /// Reacts to a request to reload. `parsed` is the configuration that was
    /// just read, or `None` where reading it failed. A configuration that was
    /// read and is well formed is taken in as [`Registry::merge`] says, and the
    /// answer is `true`. Otherwise the registry stays untouched and the answer
    /// is `false`: a reload that fails is skipped.
    pub fn reload(&mut self, parsed: Option<TMConfig>) -> (applied: bool)
        requires
            old(self)@.wf(),
        ensures
            applied == (parsed is Some && parsed.unwrap().wf()),
            applied ==> final(self)@ == old(self)@.reloaded(parsed.unwrap().programs@),
            !applied ==> final(self)@ == old(self)@,
            final(self)@.wf(),
    {
        match parsed {
            None => false,
            Some(config) => {
                if config.is_valid() {
                    self.merge(config);
                    true
                } else {
                    false
                }
            },
        }
    }

    /// Takes a new configuration into the registry: every entry whose name it
    /// declares gets the configuration declared under that name. Processes,
    /// restart bookkeeping, names and the order of the entries stay as they
    /// are, and no entry is added or removed.
    pub fn merge(&mut self, config: TMConfig)
        requires
            old(self)@.wf(),
            config.wf(),
        ensures
            final(self)@ == old(self)@.reloaded(config.programs@),
            final(self)@.wf(),
    {
        let ghost before = self@;
        let ghost declared = config.programs@;
        let n = self.programs.len();
        proof {
            assert(declared.take(0) =~= Seq::empty());
            assert forall|i: int| before.has(i) implies (#[trigger] before.entries[i]).reloaded(declared.take(0))
                == before.entries[i] by {
            }
        }
        for program in it: config.programs.into_iter()
            invariant
                it.seq() == declared,
                names_distinct(declared),
                before.wf(),
                self.issued == before.issued,
                self.programs@.len() == before.entries.len(),
                forall|i: int|
                    before.has(i) ==> (#[trigger] self.programs@[i]) == before.entries[i].reloaded(
                        declared.take(it.index() as int),
                    ),
        {
            let ghost k = it.index() as int;
            let (name, new_config) = program;
            proof {
                assert forall|i: int| before.has(i) implies (before.entries[i].name@ == declared[k].0@
                    ==> (#[trigger] before.entries[i]).reloaded(declared.take(k + 1)) == (TMProgram {
                    config: declared[k].1,
                    ..before.entries[i]
                })) && (before.entries[i].name@ != declared[k].0@ ==> before.entries[i].reloaded(
                    declared.take(k + 1),
                ) == before.entries[i].reloaded(declared.take(k))) by {
                    reloaded_step(before.entries[i], declared, k);
                }
            }
            match self.find(&name) {
                Some(i) => {
                    self.programs[i].config = new_config;
                },
                None => {},
            }
        }
        proof {
            assert(declared.take(declared.len() as int) =~= declared);
            assert(self@.entries =~= before.reloaded(declared).entries);
            assert forall|i: int| before.has(i) implies {
                &&& (#[trigger] self@.entries[i]).name == before.entries[i].name
                &&& self@.entries[i].child == before.entries[i].child
                &&& self@.entries[i].wf()
            } by {
                assert(before.entries[i].wf());
            }
        }
    }
}

} // verus!
