//! A set of names, kept as a vector in which no name occurs twice.

use vstd::prelude::*;
use crate::text::text_eq;

verus! {

/// A finite set of names. Its view is the set of the texts it holds.
pub struct NameSet {
    names: Vec<String>,
}

impl View for NameSet {
    type V = Set<Seq<char>>;

    closed spec fn view(&self) -> Set<Seq<char>> {
        self.texts().to_set()
    }
}

impl NameSet {
    /// The names in the order in which they came in.
    pub closed spec fn texts(&self) -> Seq<Seq<char>> {
        self.names@.map_values(|name: String| name@)
    }

    #[verifier::type_invariant]
    spec fn distinct(&self) -> bool {
        self.texts().no_duplicates()
    }

    /// The set without any name.
    pub fn new() -> (set: NameSet)
        ensures
            set@ == Set::<Seq<char>>::empty(),
    {
        let set = NameSet { names: Vec::new() };
        assert(set.texts() == Seq::<Seq<char>>::empty());
        assert(set@ == Set::<Seq<char>>::empty());
        set
    }

    /// Whether `name` is in the set.
    pub fn contains(&self, name: &str) -> (found: bool)
        ensures
            found == self@.contains(name@),
    {
        let mut i: usize = 0;
        while i < self.names.len()
            invariant
                i <= self.names@.len(),
                forall|j: int| 0 <= j < i ==> self.texts()[j] != name@,
            decreases self.names@.len() - i,
        {
            if text_eq(self.names[i].as_str(), name) {
                assert(self.texts()[i as int] == name@);
                return true;
            }
            i = i + 1;
        }
        false
    }

    /// Puts `name` into the set. Says whether it was new.
    pub fn insert(&mut self, name: String) -> (added: bool)
        ensures
            final(self)@ == old(self)@.insert(name@),
            added == !old(self)@.contains(name@),
    {
        proof {
            use_type_invariant(&*self);
        }
        if self.contains(name.as_str()) {
            assert(self@.insert(name@) == self@);
            false
        } else {
            let ghost before = self.texts();
            let mut names: Vec<String> = Vec::new();
            core::mem::swap(&mut self.names, &mut names);
            names.push(name);
            proof {
                let after = names@.map_values(|name: String| name@);
                assert(after == before.push(name@));
                assert(!before.contains(name@));
                assert(after.no_duplicates());
            }
            core::mem::swap(&mut self.names, &mut names);
            proof {
                assert(self.texts() == before.push(name@));
                assert(self.texts().to_set() == before.to_set().insert(name@)) by {
                    assert forall|n: Seq<char>|
                        self.texts().to_set().contains(n) == before.to_set().insert(
                            name@,
                        ).contains(n) by {
                        if before.contains(n) {
                            let j = choose|j: int| 0 <= j < before.len() && before[j] == n;
                            assert(self.texts()[j] == n);
                        }
                        if n == name@ {
                            assert(self.texts()[before.len() as int] == n);
                        }
                    }
                }
            }
            true
        }
    }

    /// How many names the set holds.
    pub fn len(&self) -> (count: usize)
        ensures
            count == self@.len(),
            self@.finite(),
    {
        proof {
            use_type_invariant(self);
            self.texts().unique_seq_to_set();
        }
        self.names.len()
    }

    /// Whether the set holds no name.
    pub fn is_empty(&self) -> (empty: bool)
        ensures
            empty == (self@ == Set::<Seq<char>>::empty()),
    {
        let empty = self.names.len() == 0;
        proof {
            if empty {
                assert(self.texts() == Seq::<Seq<char>>::empty());
                assert(self@ == Set::<Seq<char>>::empty());
            } else {
                assert(self.texts().contains(self.texts()[0]));
                assert(self@.contains(self.texts()[0]));
            }
        }
        empty
    }
}

} // verus!
