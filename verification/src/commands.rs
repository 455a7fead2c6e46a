//! The command registry: the ordered list of commands a plugin has
//! exported for the host's command surface.  Identifiers are unique;
//! adding an identifier already present updates its description in
//! place; removing and re-adding appends at the end.

use vstd::prelude::*;

use crate::PluginError;
use crate::alist::{distinct_keys, has_key, key_idx, lemma_key_idx, spec_del, spec_set};

verus! {

/// One exported command: its identifier and a human-readable description.
#[derive(Debug, Clone, PartialEq, Eq)]
pub struct CommandInfo {
    pub command: String,
    pub description: String,
}

impl View for CommandInfo {
    type V = (Seq<char>, Seq<char>);

    open spec fn view(&self) -> Self::V {
        (self.command@, self.description@)
    }
}

/// The ordered registry of exported commands, owned by one plugin
/// instance.
#[derive(Debug)]
pub struct CommandRegistry {
    entries: Vec<CommandInfo>,
}

impl View for CommandRegistry {
    type V = Seq<(Seq<char>, Seq<char>)>;

    closed spec fn view(&self) -> Self::V {
        self.entries@.map_values(|c: CommandInfo| c@)
    }
}

impl CommandRegistry {
    /// No two entries share an identifier.
    pub open spec fn wf(&self) -> bool {
        distinct_keys(self@)
    }

    pub fn new() -> (r: CommandRegistry)
        ensures
            r@ == Seq::<(Seq<char>, Seq<char>)>::empty(),
            r.wf(),
    {
        let r = CommandRegistry { entries: Vec::new() };
        proof {
            assert(r@ =~= Seq::<(Seq<char>, Seq<char>)>::empty());
        }
        r
    }

    /// Index of the entry carrying `name`, if any.
    fn find(&self, name: &str) -> (r: Option<usize>)
        requires
            self.wf(),
        ensures
            r matches Some(i) ==> 0 <= i < self@.len() && self@[i as int].0 == name@
                && i as int == key_idx(self@, name@),
            r is None ==> !has_key(self@, name@),
    {
        let n = self.entries.len();
        let mut i: usize = 0;
        while i < n
            invariant
                n == self@.len(),
                self@.len() == self.entries@.len(),
                i <= n,
                forall|j: int| 0 <= j < i ==> (#[trigger] self@[j]).0 != name@,
            decreases n - i,
        {
            assert(self@[i as int].0 == self.entries@[i as int].command@);
            if crate::text::str_eq(self.entries[i].command.as_str(), name) {
                proof {
                    assert(has_key(self@, name@));
                    lemma_key_idx(self@, name@);
                    let k = key_idx(self@, name@);
                    if k < i as int {
                        assert(self@[k].0 != name@);
                    }
                }
                return Some(i);
            }
            i = i + 1;
        }
        proof {
            if has_key(self@, name@) {
                let w = choose|j: int| 0 <= j < self@.len() && (#[trigger] self@[j]).0 == name@;
                assert(self@[w].0 != name@);
            }
        }
        None
    }

    /// Upsert: update the description in place when the identifier is
    /// already exported, append a new entry otherwise.
    pub fn upsert(&mut self, name: String, description: String)
        requires
            old(self).wf(),
        ensures
            final(self).wf(),
            final(self)@ == spec_set(old(self)@, name@, description@),
    {
        proof {
            crate::alist::lemma_set_distinct(self@, name@, description@);
        }
        let ghost pre = self@;
        match self.find(name.as_str()) {
            Some(i) => {
                let _ = self.entries.remove(i);
                self.entries.insert(i, CommandInfo { command: name, description });
                proof {
                    assert(self@ =~= spec_set(pre, name@, description@));
                }
            },
            None => {
                self.entries.push(CommandInfo { command: name, description });
                proof {
                    assert(self@ =~= spec_set(pre, name@, description@));
                }
            },
        }
    }

    /// Remove the entry carrying `name`, if any.
    pub fn remove(&mut self, name: &str)
        requires
            old(self).wf(),
        ensures
            final(self).wf(),
            final(self)@ == spec_del(old(self)@, name@),
    {
        proof {
            crate::alist::lemma_del_distinct(self@, name@);
        }
        let ghost pre = self@;
        match self.find(name) {
            Some(i) => {
                let _ = self.entries.remove(i);
                proof {
                    assert(self@ =~= spec_del(pre, name@));
                }
            },
            None => {},
        }
    }

    /// The guest-facing add: the identifier must name a function defined
    /// in the guest's global namespace (`defined`); otherwise the
    /// registry is left untouched and the call fails.
    pub fn add_checked(&mut self, name: String, description: String, defined: bool) -> (r: Result<
        (),
        PluginError,
    >)
        requires
            old(self).wf(),
        ensures
            final(self).wf(),
            defined ==> r is Ok && final(self)@ == spec_set(old(self)@, name@, description@),
            !defined ==> final(self)@ == old(self)@ && (r matches Err(e) && (e matches
                PluginError::CommandValidation(m) && m@ == name@)),
    {
        if defined {
            self.upsert(name, description);
            Ok(())
        } else {
            Err(PluginError::CommandValidation(name))
        }
    }

    /// The exported commands, in presentation order; on a well-formed
    /// registry no two entries share an identifier.
    pub fn get_commands(&self) -> (r: &Vec<CommandInfo>)
        ensures
            r@.len() == self@.len(),
            forall|i: int| 0 <= i < self@.len() ==> (#[trigger] r@[i])@ == self@[i],
            self.wf() ==> distinct_keys(self@),
    {
        &self.entries
    }

    /// Number of exported commands.
    pub fn len(&self) -> (r: usize)
        ensures
            r == self@.len(),
    {
        self.entries.len()
    }
}

} // verus!
