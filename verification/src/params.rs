//! The parameter map: a finite map from parameter names to typed values.

use vstd::prelude::*;
use crate::text::{chars_eq, chars_of};
use crate::value::{FluxValue, ValueView};

verus! {

/// One binding of the map.
struct Entry {
    name: Vec<char>,
    value: FluxValue,
}

/// A finite map from parameter names to [`FluxValue`]s. Each name is bound at
/// most once; binding a name again replaces its value.
pub struct Params {
    entries: Vec<Entry>,
}

impl View for Params {
    type V = Map<Seq<char>, ValueView>;

    closed spec fn view(&self) -> Map<Seq<char>, ValueView> {
        Map::new(|k: Seq<char>| self.binds(k), |k: Seq<char>| self.entries[self.index_of(k)].value@)
    }
}

impl Params {
    /// No name stands twice among the entries.
    #[verifier::type_invariant]
    spec fn names_unique(self) -> bool {
        forall|i: int, j: int|
            0 <= i < j < self.entries.len() ==> (#[trigger] self.entries[i]).name@
                != (#[trigger] self.entries[j]).name@
    }

    /// Entry `i` binds `name`.
    spec fn binds_at(self, name: Seq<char>, i: int) -> bool {
        0 <= i < self.entries.len() && self.entries[i].name@ == name
    }

    /// Some entry binds `name`.
    spec fn binds(self, name: Seq<char>) -> bool {
        exists|i: int| self.binds_at(name, i)
    }

    /// The entry that binds `name`.
    spec fn index_of(self, name: Seq<char>) -> int {
        choose|i: int| self.binds_at(name, i)
    }

    /// The empty map.
    pub fn new() -> (p: Params)
        ensures
            p@ == Map::<Seq<char>, ValueView>::empty(),
    {
        Params { entries: Vec::new() }
    }

    /// The index of the entry that binds `name`, if there is one.
    fn find(&self, name: &Vec<char>) -> (r: Option<usize>)
        ensures
            match r {
                Some(i) => self.binds_at(name@, i as int),
                None => !self.binds(name@),
            },
    {
        let mut i: usize = 0;
        while i < self.entries.len()
            invariant
                i <= self.entries.len(),
                forall|k: int| 0 <= k < i ==> !self.binds_at(name@, k),
            decreases self.entries.len() - i,
        {
            if chars_eq(&self.entries[i].name, name) {
                return Some(i);
            }
            i += 1;
        }
        None
    }

    /// The value bound to the characters `name`, if there is one.
    pub fn get_chars(&self, name: &Vec<char>) -> (r: Option<&FluxValue>)
        ensures
            match r {
                Some(v) => self@.contains_key(name@) && v@ == self@[name@],
                None => !self@.contains_key(name@),
            },
    {
        proof {
            use_type_invariant(self);
        }
        match self.find(name) {
            Some(i) => Some(&self.entries[i].value),
            None => None,
        }
    }

    /// The value bound to `name`, if there is one.
    pub fn get(&self, name: &str) -> (r: Option<&FluxValue>)
        ensures
            match r {
                Some(v) => self@.contains_key(name@) && v@ == self@[name@],
                None => !self@.contains_key(name@),
            },
    {
        let chars = chars_of(name);
        self.get_chars(&chars)
    }

    /// Whether `name` is bound.
    pub fn contains_key(&self, name: &str) -> (r: bool)
        ensures
            r == self@.contains_key(name@),
    {
        self.get(name).is_some()
    }

    /// Binds `name` to `value`, replacing the value that `name` had.
    pub fn insert(&mut self, name: &str, value: FluxValue)
        ensures
            final(self)@ == old(self)@.insert(name@, value@),
    {
        proof {
            use_type_invariant(&*self);
        }
        let chars = chars_of(name);
        let found = self.find(&chars);
        let ghost before = *self;
        // The entries leave the map while they change and come back in one step.
        let mut entries: Vec<Entry> = Vec::new();
        std::mem::swap(&mut self.entries, &mut entries);
        match found {
            Some(i) => {
                entries.set(i, Entry { name: chars, value });
            },
            None => {
                entries.push(Entry { name: chars, value });
                assert forall|a: int, b: int| 0 <= a < b < entries.len() implies (
                #[trigger] entries[a]).name@ != (#[trigger] entries[b]).name@ by {
                    if b == entries.len() - 1 {
                        assert(!before.binds_at(name@, a));
                    }
                }
            },
        }
        std::mem::swap(&mut self.entries, &mut entries);
        proof {
            let after = *self;
            let slot = match found {
                Some(i) => i as int,
                None => before.entries.len() as int,
            };
            assert(after.binds_at(name@, slot));
            // Every other name is bound where it was, and to what it was.
            assert forall|k: Seq<char>, i: int| k != name@ implies after.binds_at(k, i)
                == before.binds_at(k, i) by {}
            assert forall|k: Seq<char>| after.binds(k) == (before.binds(k) || k == name@) by {}
            assert forall|k: Seq<char>| after.binds(k) implies after.entries[after.index_of(
                k,
            )].value@ == before@.insert(name@, value@)[k] by {}
        }
    }
}

} // verus!
