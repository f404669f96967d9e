//! A finite set of names, as the parsers of kernel parameters and module
//! listings produce it.

use vstd::prelude::*;
use crate::text::{chars_of, range_equals};

verus! {

/// A set of names. A well-formed set holds no name twice.
pub struct TokenSet {
    names: Vec<Vec<char>>,
}

impl TokenSet {
    /// The names held, in the order in which they were first inserted.
    pub closed spec fn listing(&self) -> Seq<Seq<char>> {
        self.names@.map_values(|v: Vec<char>| v@)
    }

    /// Whether no name is held twice.
    pub closed spec fn wf(&self) -> bool {
        self.listing().no_duplicates()
    }
}

impl View for TokenSet {
    type V = Set<Seq<char>>;

    closed spec fn view(&self) -> Set<Seq<char>> {
        self.listing().to_set()
    }
}

impl TokenSet {
    /// The empty set.
    pub fn new() -> (set: TokenSet)
        ensures
            set.wf(),
            set@ == Set::<Seq<char>>::empty(),
    {
        let set = TokenSet { names: Vec::new() };
        assert(set.listing() =~= Seq::empty());
        assert(set@ =~= Set::<Seq<char>>::empty());
        set
    }

    /// Tests whether the name `name` is in the set.
    pub fn contains_chars(&self, name: &Vec<char>) -> (found: bool)
        ensures
            found == self@.contains(name@),
    {
        let mut i: usize = 0;
        while i < self.names.len()
            invariant
                i <= self.names.len(),
                forall|j: int| 0 <= j < i ==> self.listing()[j] != name@,
            decreases self.names.len() - i,
        {
            let candidate = &self.names[i];
            let same = range_equals(candidate, 0, candidate.len(), name);
            assert(candidate@.subrange(0, candidate.len() as int) =~= candidate@);
            if same {
                assert(self.listing()[i as int] == name@);
                return true;
            }
            i += 1;
        }
        false
    }

    /// Tests whether `name` is in the set.
    pub fn contains(&self, name: &str) -> (found: bool)
        ensures
            found == self@.contains(name@),
    {
        let chars = chars_of(name);
        self.contains_chars(&chars)
    }

    /// Puts `name` into the set.
    pub fn insert(&mut self, name: Vec<char>)
        requires
            old(self).wf(),
        ensures
            final(self).wf(),
            final(self)@ == old(self)@.insert(name@),
    {
        if !self.contains_chars(&name) {
            let ghost before = self.listing();
            self.names.push(name);
            proof {
                assert(self.listing() =~= before.push(name@));
                before.lemma_push_to_set_commute(name@);
            }
        } else {
            assert(self@ =~= old(self)@.insert(name@));
        }
    }

    /// The number of names in the set.
    pub fn len(&self) -> (n: usize)
        requires
            self.wf(),
        ensures
            n == self@.len(),
            self@.finite(),
    {
        proof {
            self.listing().unique_seq_to_set();
        }
        self.names.len()
    }
}

} // verus!
