//! The table of user-defined themes, keyed by theme name.

use crate::style::Theme;
use vstd::prelude::*;

verus! {

/// The theme that the entries give to `name`: the last entry with that name
/// wins, so a later insertion replaces an earlier one.
pub open spec fn lookup(entries: Seq<(String, Theme)>, name: Seq<char>) -> Option<Theme>
    decreases entries.len(),
{
    if entries.len() == 0 {
        None
    } else if entries.last().0@ == name {
        Some(entries.last().1)
    } else {
        lookup(entries.drop_last(), name)
    }
}

/// Named themes, as a finite map from theme names to themes.
#[derive(Clone)]
pub struct Themes {
    entries: Vec<(String, Theme)>,
}

impl View for Themes {
    type V = Map<Seq<char>, Theme>;

    closed spec fn view(&self) -> Map<Seq<char>, Theme> {
        Map::new(
            |name: Seq<char>| lookup(self.entries@, name) is Some,
            |name: Seq<char>| lookup(self.entries@, name)->0,
        )
    }
}

impl Themes {
    /// The table without any theme.
    pub fn new() -> (t: Themes)
        ensures
            t@ == Map::<Seq<char>, Theme>::empty(),
    {
        let t = Themes { entries: Vec::new() };
        assert(t@ =~= Map::<Seq<char>, Theme>::empty());
        t
    }

    /// Gives `name` the theme `theme`, replacing any theme it had.
    pub fn insert(&mut self, name: String, theme: Theme)
        ensures
            final(self)@ == old(self)@.insert(name@, theme),
    {
        let ghost n = name@;
        self.entries.push((name, theme));
        proof {
            assert(self.entries@.drop_last() =~= old(self).entries@);
            assert(self@ =~= old(self)@.insert(n, theme));
        }
    }

    /// The table's entries in insertion order; a later entry for a name
    /// replaces an earlier one.
    pub fn entries(&self) -> (e: &Vec<(String, Theme)>)
        ensures
            forall|name: Seq<char>|
                #[trigger] lookup(e@, name) == if self@.contains_key(name) {
                    Some(self@[name])
                } else {
                    None
                },
    {
        &self.entries
    }

    /// The theme called `name`, if there is one.
    pub fn get(&self, name: &String) -> (t: Option<&Theme>)
        ensures
            match t {
                Some(th) => self@.contains_key(name@) && *th == self@[name@],
                None => !self@.contains_key(name@),
            },
    {
        let mut i = self.entries.len();
        assert(self.entries@.take(i as int) =~= self.entries@);
        while i > 0
            invariant
                i <= self.entries@.len(),
                lookup(self.entries@, name@) == lookup(self.entries@.take(i as int), name@),
            decreases i,
        {
            proof {
                assert(self.entries@.take(i as int).drop_last() =~= self.entries@.take(i - 1));
            }
            if self.entries[i - 1].0 == *name {
                return Some(&self.entries[i - 1].1);
            }
            i = i - 1;
        }
        None
    }
}

/// A theme written under a name is read back under that name, and writing
/// it leaves every other name as it was: once `insert` has turned `before`
/// into `after`, `get` of the name gives the theme written, and `get` of any
/// other name gives what it gave before.
pub proof fn lemma_read_after_write(
    before: Themes,
    after: Themes,
    name: Seq<char>,
    theme: Theme,
    other: Seq<char>,
)
    requires
        after@ == before@.insert(name, theme),
    ensures
        after@.contains_key(name),
        after@[name] == theme,
        other != name ==> after@.contains_key(other) == before@.contains_key(other),
        other != name && before@.contains_key(other) ==> after@[other] == before@[other],
{
}

} // verus!
