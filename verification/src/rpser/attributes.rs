//! The attributes of one element: a finite map from names to values.

use vstd::prelude::*;
use crate::rpser::text::same_text;

verus! {

/// A map from attribute names to values, kept as a list of pairs in which no
/// name occurs twice.
#[derive(Debug)]
pub struct Attributes {
    pub(crate) entries: Vec<(String, String)>,
}

/// Whether `key` is the name of the pair at `i`.
pub open spec fn names_entry(entries: Seq<(String, String)>, i: int, key: Seq<char>) -> bool {
    0 <= i < entries.len() && entries[i].0@ == key
}

/// Whether no name occurs at two places of `entries`.
pub open spec fn names_distinct(entries: Seq<(String, String)>) -> bool {
    forall|i: int, j: int|
        0 <= i < j < entries.len() ==> entries[i].0@ != entries[j].0@
}

impl View for Attributes {
    type V = Map<Seq<char>, Seq<char>>;

    closed spec fn view(&self) -> Map<Seq<char>, Seq<char>> {
        Map::new(
            |k: Seq<char>| exists|i: int| names_entry(self.entries@, i, k),
            |k: Seq<char>| self.entries@[choose|i: int| names_entry(self.entries@, i, k)].1@,
        )
    }
}

impl Attributes {
    #[verifier::type_invariant]
    spec fn well_formed(self) -> bool {
        names_distinct(self.entries@)
    }

    /// The map without any attribute.
    pub fn new() -> (r: Attributes)
        ensures
            r@ == Map::<Seq<char>, Seq<char>>::empty(),
    {
        let r = Attributes { entries: Vec::new() };
        assert(r@ =~= Map::<Seq<char>, Seq<char>>::empty());
        r
    }

    /// Where `key` stands in the list, if it does.
    fn position(&self, key: &str) -> (r: Option<usize>)
        ensures
            match r {
                Some(i) => names_entry(self.entries@, i as int, key@),
                None => forall|i: int| !names_entry(self.entries@, i, key@),
            },
    {
        let mut i: usize = 0;
        while i < self.entries.len()
            invariant
                i <= self.entries.len(),
                forall|j: int| 0 <= j < i ==> !names_entry(self.entries@, j, key@),
            decreases self.entries.len() - i,
        {
            if same_text(self.entries[i].0.as_str(), key) {
                return Some(i);
            }
            i = i + 1;
        }
        None
    }

    /// The value stored under `key`, if there is one.
    pub fn get(&self, key: &str) -> (r: Option<&String>)
        ensures
            match r {
                Some(v) => self@.contains_key(key@) && v@ == self@[key@],
                None => !self@.contains_key(key@),
            },
    {
        proof {
            use_type_invariant(self);
        }
        match self.position(key) {
            Some(i) => {
                assert(names_entry(self.entries@, i as int, key@));
                Some(&self.entries[i].1)
            },
            None => None,
        }
    }

    /// The map that holds `value` under `key` and is otherwise as this one.
    pub fn with(self, key: String, value: String) -> (r: Attributes)
        ensures
            r@ == self@.insert(key@, value@),
    {
        proof {
            use_type_invariant(&self);
        }
        let found = self.position(key.as_str());
        let ghost before = self.entries@;
        let ghost at: int = match found {
            Some(i) => i as int,
            None => before.len() as int,
        };
        let mut entries = self.entries;
        match found {
            Some(i) => {
                entries.set(i, (key, value));
            },
            None => {
                entries.push((key, value));
            },
        }
        proof {
            assert(entries@[at] == (key, value));
            assert forall|j: int| 0 <= j < before.len() && j != at implies entries@[j]
                == before[j] by {}
            assert forall|j: int| 0 <= j < before.len() implies entries@[j].0@
                == before[j].0@ by {}
            assert forall|a: int, b: int| 0 <= a < b < entries@.len() implies entries@[a].0@
                != entries@[b].0@ by {
                if b < before.len() {
                    assert(before[a].0@ != before[b].0@);
                } else {
                    assert(!names_entry(before, a, key@));
                }
            }
        }
        let r = Attributes { entries };
        proof {
            let want = self@.insert(key@, value@);
            assert forall|k: Seq<char>| r@.contains_key(k) <==> want.contains_key(k) by {
                if r@.contains_key(k) {
                    let j = choose|j: int| names_entry(entries@, j, k);
                    if j != at {
                        assert(names_entry(before, j, k));
                    }
                }
                if want.contains_key(k) {
                    if k == key@ {
                        assert(names_entry(entries@, at, k));
                    } else {
                        let j = choose|j: int| names_entry(before, j, k);
                        assert(names_entry(entries@, j, k));
                    }
                }
            }
            assert forall|k: Seq<char>| r@.contains_key(k) implies r@[k] == want[k] by {
                let j = choose|j: int| names_entry(entries@, j, k);
                if k == key@ {
                    assert(names_entry(entries@, at, k));
                    assert(j == at);
                } else {
                    assert(names_entry(before, j, k));
                    let j0 = choose|j: int| names_entry(before, j, k);
                    assert(j0 == j);
                }
            }
            assert(r@ =~= want);
        }
        r
    }

    /// A copy that owns its own text.
    pub fn cloned(&self) -> (r: Attributes)
        ensures
            r@ == self@,
    {
        proof {
            use_type_invariant(self);
        }
        let mut entries: Vec<(String, String)> = Vec::new();
        let mut i: usize = 0;
        while i < self.entries.len()
            invariant
                i <= self.entries.len(),
                entries.len() == i,
                forall|j: int| 0 <= j < i ==> entries[j] == self.entries[j],
            decreases self.entries.len() - i,
        {
            entries.push((self.entries[i].0.clone(), self.entries[i].1.clone()));
            i = i + 1;
        }
        assert(entries@ =~= self.entries@);
        Attributes { entries }
    }
}

} // verus!
