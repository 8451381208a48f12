//! The table of lint settings that a manifest declares: for each lint or group
//! name, a level and a priority.
use vstd::prelude::*;

use crate::level::LintLevel;
use crate::text::{first_named, lemma_first_named_at, lemma_first_named_none, same_text};

verus! {

/// One declared setting: the level, and the priority that orders it against
/// a setting of the lint's group.
#[derive(Copy, Clone, Debug, PartialEq, Eq, Structural)]
pub struct DeclaredLint {
    pub level: LintLevel,
    pub priority: i8,
}

impl DeclaredLint {
    pub fn level(&self) -> (r: LintLevel)
        ensures
            r == self.level,
    {
        self.level
    }

    pub fn priority(&self) -> (r: i8)
        ensures
            r == self.priority,
    {
        self.priority
    }
}

pub open spec fn entry_names(entries: Seq<(Seq<char>, DeclaredLint)>) -> Seq<Seq<char>> {
    entries.map_values(|e: (Seq<char>, DeclaredLint)| e.0)
}

/// The declared settings of a `[lints.cargo]` table, in declaration order.
/// Each name occurs once.
#[derive(Clone, Debug)]
pub struct LintsTable {
    entries: Vec<(String, DeclaredLint)>,
}

impl View for LintsTable {
    type V = Seq<(Seq<char>, DeclaredLint)>;

    closed spec fn view(&self) -> Seq<(Seq<char>, DeclaredLint)> {
        self.entries@.map_values(|e: (String, DeclaredLint)| (e.0@, e.1))
    }
}

impl LintsTable {
    /// The setting declared for `name`, if any.
    pub open spec fn spec_get(&self, name: Seq<char>) -> Option<DeclaredLint> {
        match first_named(entry_names(self@), name) {
            Some(i) => Some(self@[i].1),
            None => None,
        }
    }

    /// Each name is declared at most once.
    pub open spec fn wf(&self) -> bool {
        forall|i: int, j: int|
            0 <= i < j < self@.len() ==> #[trigger] self@[i].0 != #[trigger] self@[j].0
    }

    /// The empty table.
    pub fn new() -> (r: LintsTable)
        ensures
            r@.len() == 0,
            r.wf(),
    {
        let r = LintsTable { entries: Vec::new() };
        assert(r@ =~= Seq::<(Seq<char>, DeclaredLint)>::empty());
        r
    }

    /// The number of declared names.
    pub fn len(&self) -> (r: usize)
        ensures
            r == self@.len(),
    {
        self.entries.len()
    }

    /// The name declared at `index`.
    pub fn name_at(&self, index: usize) -> (r: &String)
        requires
            index < self@.len(),
        ensures
            r@ == self@[index as int].0,
    {
        &self.entries[index].0
    }

    fn position(&self, name: &str) -> (r: Option<usize>)
        ensures
            r matches Some(i) ==> first_named(entry_names(self@), name@) == Some(i as int),
            r is None ==> first_named(entry_names(self@), name@) is None,
            r is None ==> forall|j: int| 0 <= j < self@.len() ==> entry_names(self@)[j] != name@,
    {
        let mut i: usize = 0;
        while i < self.entries.len()
            invariant
                i <= self@.len(),
                self@.len() == self.entries@.len(),
                forall|j: int| 0 <= j < i ==> entry_names(self@)[j] != name@,
            decreases self.entries@.len() - i,
        {
            assert(entry_names(self@)[i as int] == self.entries@[i as int].0@);
            if same_text(self.entries[i].0.as_str(), name) {
                proof {
                    lemma_first_named_at(entry_names(self@), name@, i as int);
                }
                return Some(i);
            }
            i = i + 1;
        }
        proof {
            lemma_first_named_none(entry_names(self@), name@);
        }
        None
    }

    /// The setting declared for `name`, if any.
    pub fn get(&self, name: &str) -> (r: Option<DeclaredLint>)
        ensures
            r == self.spec_get(name@),
    {
        match self.position(name) {
            Some(i) => Some(self.entries[i].1),
            None => None,
        }
    }

    /// Declares `setting` for `name`, replacing an earlier setting of that name.
    pub fn insert(&mut self, name: String, setting: DeclaredLint)
        requires
            old(self).wf(),
        ensures
            final(self).wf(),
            match first_named(entry_names(old(self)@), name@) {
                Some(i) => final(self)@ == old(self)@.update(i, (name@, setting)),
                None => final(self)@ == old(self)@.push((name@, setting)),
            },
    {
        match self.position(name.as_str()) {
            Some(i) => {
                proof {
                    assert(entry_names(old(self)@)[i as int] == name@);
                }
                self.entries.set(i, (name, setting));
                assert(self@ =~= old(self)@.update(i as int, (name@, setting)));
            },
            None => {
                let ghost nm = name@;
                self.entries.push((name, setting));
                assert(self@ =~= old(self)@.push((nm, setting)));
                assert forall|i: int, j: int|
                    0 <= i < j < self@.len() implies #[trigger] self@[i].0 != #[trigger] self@[j].0 by {
                    if j == self@.len() - 1 {
                        assert(entry_names(old(self)@)[i] == old(self)@[i].0);
                    } else {
                        assert(self@[i] == old(self)@[i] && self@[j] == old(self)@[j]);
                    }
                }
            },
        }
    }
}

} // verus!
