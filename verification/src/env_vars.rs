//! Environment variables: a map from names to values.
use vstd::prelude::*;

use crate::text;

verus! {

/// Environment variables, each with one value.
#[derive(Debug)]
pub struct EnvVars {
    entries: Vec<(String, String)>,
}

impl EnvVars {
    /// No name occurs twice.
    #[verifier::type_invariant]
    spec fn well_formed(&self) -> bool {
        forall|i: int, j: int|
            0 <= i < j < self.entries@.len() ==> (#[trigger] self.entries@[i]).0@ != (
            #[trigger] self.entries@[j]).0@
    }

    closed spec fn at(&self, name: Seq<char>, i: int) -> bool {
        0 <= i < self.entries@.len() && self.entries@[i].0@ == name
    }

    closed spec fn has(&self, name: Seq<char>) -> bool {
        exists|i: int| self.at(name, i)
    }

    closed spec fn value(&self, name: Seq<char>) -> Seq<char> {
        self.entries@[choose|i: int| self.at(name, i)].1@
    }
}

impl View for EnvVars {
    type V = Map<Seq<char>, Seq<char>>;

    closed spec fn view(&self) -> Map<Seq<char>, Seq<char>> {
        Map::new(|name: Seq<char>| self.has(name), |name: Seq<char>| self.value(name))
    }
}

impl EnvVars {
    proof fn lemma_entry(&self, i: int)
        requires
            self.well_formed(),
            0 <= i < self.entries@.len(),
        ensures
            self@.dom().contains(self.entries@[i].0@),
            self@[self.entries@[i].0@] == self.entries@[i].1@,
    {
        let name = self.entries@[i].0@;
        assert(self.at(name, i));
        let j = choose|j: int| self.at(name, j);
        assert(self.at(name, j));
        if i < j {
            assert(self.entries@[i].0@ != self.entries@[j].0@);
        }
        if j < i {
            assert(self.entries@[j].0@ != self.entries@[i].0@);
        }
    }

    proof fn lemma_index(&self, name: Seq<char>) -> (i: int)
        requires
            self@.dom().contains(name),
        ensures
            0 <= i < self.entries@.len(),
            self.entries@[i].0@ == name,
            self@[name] == self.entries@[i].1@,
    {
        let i = choose|i: int| self.at(name, i);
        assert(self.has(name));
        assert(self.at(name, i));
        i
    }

    pub fn new() -> (r: EnvVars)
        ensures
            r@ == Map::<Seq<char>, Seq<char>>::empty(),
    {
        let r = EnvVars { entries: Vec::new() };
        assert(r@ =~= Map::<Seq<char>, Seq<char>>::empty());
        r
    }

    pub fn is_empty(&self) -> (r: bool)
        ensures
            r <==> self@ == Map::<Seq<char>, Seq<char>>::empty(),
    {
        let r = self.entries.len() == 0;
        proof {
            use_type_invariant(self);
            if r {
                assert(self@ =~= Map::<Seq<char>, Seq<char>>::empty());
            } else {
                self.lemma_entry(0);
            }
        }
        r
    }

    /// The index of a name, or the number of entries where it does not occur.
    fn find(&self, name: &str) -> (i: usize)
        ensures
            i <= self.entries@.len(),
            i < self.entries@.len() ==> self.entries@[i as int].0@ == name@ && self@.dom().contains(
                name@,
            ) && self@[name@] == self.entries@[i as int].1@,
            i == self.entries@.len() ==> !self@.dom().contains(name@),
    {
        proof {
            use_type_invariant(self);
        }
        let mut i: usize = 0;
        while i < self.entries.len()
            invariant
                i <= self.entries@.len(),
                self.well_formed(),
                forall|k: int| 0 <= k < i ==> (#[trigger] self.entries@[k]).0@ != name@,
            decreases self.entries.len() - i,
        {
            if text::same(self.entries[i].0.as_str(), name) {
                proof {
                    self.lemma_entry(i as int);
                }
                return i;
            }
            i += 1;
        }
        proof {
            if self@.dom().contains(name@) {
                let k = self.lemma_index(name@);
                assert(self.entries@[k].0@ != name@);
            }
        }
        i
    }

    /// The value of a variable.
    pub fn get(&self, name: &str) -> (r: Option<&str>)
        ensures
            r is Some <==> self@.dom().contains(name@),
            r matches Some(value) ==> value@ == self@[name@],
    {
        let i: usize = self.find(name);
        if i < self.entries.len() {
            Some(self.entries[i].1.as_str())
        } else {
            None
        }
    }

    /// Sets a variable, whether it had a value before or not.
    pub fn insert(&mut self, name: String, value: String)
        ensures
            final(self)@ == old(self)@.insert(name@, value@),
    {
        proof {
            use_type_invariant(&*self);
        }
        let ghost before = *self;
        let i: usize = self.find(name.as_str());
        let mut entries: Vec<(String, String)> = Vec::new();
        std::mem::swap(&mut entries, &mut self.entries);
        if i < entries.len() {
            entries.set(i, (name, value));
        } else {
            entries.push((name, value));
        }
        let ghost after = EnvVars { entries };
        proof {
            assert(after.entries@.len() >= before.entries@.len());
            assert forall|k: int| 0 <= k < before.entries@.len() && k != i implies (
            #[trigger] after.entries@[k]) == before.entries@[k] by {}
            assert(after.entries@[i as int] == (name, value));
            assert(after.well_formed()) by {
                assert forall|a: int, b: int| 0 <= a < b < after.entries@.len() implies (
                #[trigger] after.entries@[a]).0@ != (#[trigger] after.entries@[b]).0@ by {
                    if a != i && b != i {
                        assert(before.entries@[a].0@ != before.entries@[b].0@);
                    } else if i < before.entries@.len() {
                        assert(before.entries@[a].0@ != before.entries@[b].0@);
                    } else {
                        before.lemma_entry(a);
                    }
                }
            }
            let m = before@.insert(name@, value@);
            assert forall|k: Seq<char>| #[trigger] after@.dom().contains(k) implies m.dom().contains(
                k,
            ) && after@[k] == m[k] by {
                let j = after.lemma_index(k);
                if j != i {
                    before.lemma_entry(j);
                    after.lemma_entry(i as int);
                    if k == name@ {
                        assert(after.entries@[j].0@ == after.entries@[i as int].0@);
                        if j < i {
                            assert(after.entries@[j].0@ != after.entries@[i as int].0@);
                        } else {
                            assert(after.entries@[i as int].0@ != after.entries@[j].0@);
                        }
                    }
                }
            }
            assert forall|k: Seq<char>| #[trigger] m.dom().contains(k) implies after@.dom().contains(
                k,
            ) by {
                if k == name@ {
                    after.lemma_entry(i as int);
                } else {
                    let j = before.lemma_index(k);
                    assert(j != i);
                    assert(after.entries@[j] == before.entries@[j]);
                    after.lemma_entry(j);
                }
            }
            assert(after@.dom() =~= m.dom());
            assert(after@ =~= m);
        }
        self.entries = entries;
    }

    /// Sets all variables of `other`.
    pub fn extend(&mut self, other: &EnvVars)
        ensures
            final(self)@ == old(self)@.union_prefer_right(other@),
    {
        proof {
            use_type_invariant(other);
        }
        let ghost before = self@;
        let mut i: usize = 0;
        assert(self@ =~= before.union_prefer_right(
            other@.restrict(Set::new(|k: Seq<char>| exists|j: int| 0 <= j < 0 && other.at(k, j))),
        ));
        while i < other.entries.len()
            invariant
                i <= other.entries@.len(),
                other.well_formed(),
                self@ == before.union_prefer_right(
                    other@.restrict(
                        Set::new(|k: Seq<char>| exists|j: int| 0 <= j < i && other.at(k, j)),
                    ),
                ),
            decreases other.entries.len() - i,
        {
            let ghost mid = self@;
            let name = other.entries[i].0.clone();
            let value = other.entries[i].1.clone();
            self.insert(name, value);
            proof {
                other.lemma_entry(i as int);
                let done = Set::new(
                    |k: Seq<char>| exists|j: int| 0 <= j < i && other.at(k, j),
                );
                let next = Set::new(
                    |k: Seq<char>| exists|j: int| 0 <= j < i + 1 && other.at(k, j),
                );
                assert(other.at(name@, i as int));
                assert forall|k: Seq<char>| next.contains(k) implies done.contains(k) || k
                    == name@ by {
                    let j = choose|j: int| 0 <= j < i + 1 && other.at(k, j);
                    if j < i {
                        assert(0 <= j < i && other.at(k, j));
                    }
                }
                assert forall|k: Seq<char>| done.contains(k) implies next.contains(k) by {
                    let j = choose|j: int| 0 <= j < i && other.at(k, j);
                    assert(0 <= j < i + 1 && other.at(k, j));
                }
                assert(next.contains(name@));
                assert(self@ =~= before.union_prefer_right(other@.restrict(next)));
            }
            i += 1;
        }
        proof {
            let all = Set::new(
                |k: Seq<char>| exists|j: int| 0 <= j < i && other.at(k, j),
            );
            assert forall|k: Seq<char>| other@.dom().contains(k) implies all.contains(k) by {
                let j = other.lemma_index(k);
                assert(other.at(k, j));
            }
            assert(other@.restrict(all) =~= other@);
        }
    }

    /// The variables as pairs, each once, in no particular order.
    pub fn pairs(&self) -> (r: &Vec<(String, String)>)
        ensures
            forall|i: int, j: int|
                0 <= i < j < r@.len() ==> (#[trigger] r@[i]).0@ != (#[trigger] r@[j]).0@,
            forall|i: int|
                0 <= i < r@.len() ==> self@.dom().contains((#[trigger] r@[i]).0@)
                    && self@[r@[i].0@] == r@[i].1@,
            forall|name: Seq<char>|
                self@.dom().contains(name) ==> exists|i: int|
                    0 <= i < r@.len() && (#[trigger] r@[i]).0@ == name,
    {
        proof {
            use_type_invariant(self);
            assert forall|i: int| 0 <= i < self.entries@.len() implies self@.dom().contains(
                (#[trigger] self.entries@[i]).0@,
            ) && self@[self.entries@[i].0@] == self.entries@[i].1@ by {
                self.lemma_entry(i);
            }
            assert forall|name: Seq<char>| self@.dom().contains(name) implies exists|i: int|
                0 <= i < self.entries@.len() && (#[trigger] self.entries@[i]).0@ == name by {
                let i = self.lemma_index(name);
                assert(self.entries@[i].0@ == name);
            }
        }
        &self.entries
    }
}

} // verus!
