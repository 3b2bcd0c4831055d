//! The variable map: the named values that argument templates draw on.

use vstd::prelude::*;

verus! {

/// The map that a run of insertions builds: a later insertion of a name
/// replaces an earlier one.
pub open spec fn entries_map(entries: Seq<(Seq<char>, Seq<char>)>) -> Map<Seq<char>, Seq<char>>
    decreases entries.len(),
{
    if entries.len() == 0 {
        Map::empty()
    } else {
        entries_map(entries.drop_last()).insert(entries.last().0, entries.last().1)
    }
}

/// What a placeholder stands for: the value under its name, and the empty
/// text where the map has no such name.
pub open spec fn resolved(map: Map<Seq<char>, Seq<char>>, name: Seq<char>) -> Seq<char> {
    if map.contains_key(name) {
        map[name]
    } else {
        Seq::empty()
    }
}

/// A mapping from placeholder names to their values.
#[derive(Debug)]
pub struct VariableMap {
    entries: Vec<(String, String)>,
}

impl View for VariableMap {
    type V = Map<Seq<char>, Seq<char>>;

    closed spec fn view(&self) -> Map<Seq<char>, Seq<char>> {
        entries_map(self.pairs())
    }
}

impl VariableMap {
    closed spec fn pairs(&self) -> Seq<(Seq<char>, Seq<char>)> {
        Seq::new(self.entries@.len(), |i: int| (self.entries@[i].0@, self.entries@[i].1@))
    }

    /// A map without names.
    pub fn new() -> (map: VariableMap)
        ensures
            map@ == Map::<Seq<char>, Seq<char>>::empty(),
    {
        VariableMap { entries: Vec::new() }
    }

    /// Puts a value under a name, in place of the value that the name had.
    pub fn insert(&mut self, name: String, value: String)
        ensures
            final(self)@ == old(self)@.insert(name@, value@),
    {
        let ghost before = self.pairs();
        self.entries.push((name, value));
        proof {
            assert(self.pairs().drop_last() =~= before);
        }
    }

    /// The value under a name, if the map has the name.
    pub fn get(&self, name: &str) -> (value: Option<String>)
        ensures
            match value {
                Some(text) => self@.contains_key(name@) && text@ == self@[name@],
                None => !self@.contains_key(name@),
            },
    {
        let key: String = name.to_owned();
        let mut i: usize = self.entries.len();
        proof {
            assert(self.pairs().take(i as int) =~= self.pairs());
        }
        while i > 0
            invariant
                i <= self.entries@.len(),
                key@ == name@,
                self@.contains_key(name@) == entries_map(self.pairs().take(i as int)).contains_key(
                    name@,
                ),
                self@.contains_key(name@) ==> self@[name@] == entries_map(
                    self.pairs().take(i as int),
                )[name@],
            decreases i,
        {
            proof {
                assert(self.pairs().take(i as int).drop_last() =~= self.pairs().take(i - 1));
            }
            i = i - 1;
            if self.entries[i].0 == key {
                return Some(self.entries[i].1.clone());
            }
        }
        None
    }

    /// Whether the map has the name.
    pub fn contains_key(&self, name: &str) -> (found: bool)
        ensures
            found == self@.contains_key(name@),
    {
        self.get(name).is_some()
    }

    /// The substitution for a placeholder: its value, or the empty text for
    /// a name that the map lacks.  It never fails.
    pub fn lookup(&self, name: &str) -> (text: String)
        ensures
            text@ == resolved(self@, name@),
    {
        match self.get(name) {
            Some(text) => text,
            None => String::new(),
        }
    }
}

} // verus!
