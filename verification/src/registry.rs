//! A small map from names to values, kept as two parallel vectors in which
//! no name occurs twice. It is read through its view, a `Map` from the
//! name's characters to the value.

use vstd::prelude::*;

verus! {

pub struct Registry<V> {
    names: Vec<String>,
    values: Vec<V>,
}

/// Where `name` stands among `names`, if it does.
pub open spec fn is_slot(names: Seq<String>, name: Seq<char>, i: int) -> bool {
    0 <= i < names.len() && names[i]@ == name
}

impl<V: Copy> Registry<V> {
    /// The vectors run in parallel and no name occurs twice.
    pub closed spec fn wf(&self) -> bool {
        &&& self.names.len() == self.values.len()
        &&& forall|i: int, j: int|
            0 <= i < j < self.names.len() ==> self.names[i]@ != self.names[j]@
    }

    pub closed spec fn view(&self) -> Map<Seq<char>, V> {
        Map::new(
            |name: Seq<char>| exists|i: int| is_slot(self.names@, name, i),
            |name: Seq<char>| self.values[choose|i: int| is_slot(self.names@, name, i)],
        )
    }

    /// The names of the first `n` entries.
    spec fn names_upto(&self, n: int) -> Set<Seq<char>> {
        Set::new(|name: Seq<char>| exists|i: int| is_slot(self.names@, name, i) && i < n)
    }

    /// A well-formed registry holds finitely many names.
    pub proof fn lemma_finite(&self)
        requires
            self.wf(),
        ensures
            self@.dom().finite(),
    {
        self.lemma_count(self.names.len() as int);
        assert(self@.dom() =~= self.names_upto(self.names.len() as int));
    }

    /// What the view holds at the name of slot `i`.
    proof fn lemma_slot(&self, i: int)
        requires
            self.wf(),
            0 <= i < self.names.len(),
        ensures
            self@.contains_key(self.names[i]@),
            self@[self.names[i]@] == self.values[i],
    {
        let name = self.names[i]@;
        assert(is_slot(self.names@, name, i));
        let j = choose|j: int| is_slot(self.names@, name, j);
        assert(j == i);
    }

    pub fn new() -> (registry: Registry<V>)
        ensures
            registry.wf(),
            registry@ == Map::<Seq<char>, V>::empty(),
    {
        let registry = Registry { names: Vec::new(), values: Vec::new() };
        assert(registry@ =~= Map::<Seq<char>, V>::empty());
        registry
    }

    /// The slot that holds `name`, if any does.
    fn find(&self, name: &String) -> (slot: Option<usize>)
        requires
            self.wf(),
        ensures
            slot is Some <==> self@.contains_key(name@),
            slot is Some ==> is_slot(self.names@, name@, slot->Some_0 as int),
    {
        let mut i: usize = 0;
        while i < self.names.len()
            invariant
                0 <= i <= self.names.len(),
                forall|j: int| 0 <= j < i ==> self.names[j]@ != name@,
            decreases self.names.len() - i,
        {
            if self.names[i] == *name {
                assert(is_slot(self.names@, name@, i as int));
                return Some(i);
            }
            i += 1;
        }
        assert(!self@.contains_key(name@)) by {
            if self@.contains_key(name@) {
                let j = choose|j: int| is_slot(self.names@, name@, j);
                assert(self.names[j]@ != name@);
            }
        }
        None
    }

    pub fn contains_key(&self, name: &String) -> (found: bool)
        requires
            self.wf(),
        ensures
            found == self@.contains_key(name@),
    {
        self.find(name).is_some()
    }

    /// The value recorded under `name`.
    pub fn get(&self, name: &String) -> (value: Option<V>)
        requires
            self.wf(),
        ensures
            value == if self@.contains_key(name@) {
                Some(self@[name@])
            } else {
                None
            },
    {
        match self.find(name) {
            Some(i) => {
                proof {
                    self.lemma_slot(i as int);
                }
                Some(self.values[i])
            },
            None => None,
        }
    }

    /// Records `value` under `name`, in place of what was there. Hands back
    /// what was there.
    pub fn insert(&mut self, name: &String, value: V) -> (previous: Option<V>)
        requires
            old(self).wf(),
        ensures
            final(self).wf(),
            final(self)@ == old(self)@.insert(name@, value),
            previous == if old(self)@.contains_key(name@) {
                Some(old(self)@[name@])
            } else {
                None
            },
    {
        match self.find(name) {
            Some(i) => {
                proof {
                    self.lemma_slot(i as int);
                }
                let previous = self.values[i];
                self.values.set(i, value);
                proof {
                    assert forall|k: Seq<char>| #[trigger]
                        final(self)@.contains_key(k) == old(self)@.insert(
                            name@,
                            value,
                        ).contains_key(k) by {
                        if old(self)@.contains_key(k) {
                            let j = choose|j: int| is_slot(old(self).names@, k, j);
                            assert(is_slot(self.names@, k, j));
                        }
                        if self@.contains_key(k) {
                            let j = choose|j: int| is_slot(self.names@, k, j);
                            assert(is_slot(old(self).names@, k, j));
                        }
                    }
                    assert forall|k: Seq<char>| #[trigger] self@.contains_key(k) implies self@[k]
                        == old(self)@.insert(name@, value)[k] by {
                        let j = choose|j: int| is_slot(self.names@, k, j);
                        self.lemma_slot(j);
                        old(self).lemma_slot(j);
                    }
                    assert(self@ =~= old(self)@.insert(name@, value));
                }
                Some(previous)
            },
            None => {
                self.names.push(name.clone());
                self.values.push(value);
                proof {
                    let n = old(self).names.len() as int;
                    assert(self.names[n]@ == name@);
                    assert forall|i: int, j: int| 0 <= i < j < self.names.len() implies self.names[i]@
                        != self.names[j]@ by {
                        if j == n {
                            if self.names[i]@ == name@ {
                                assert(is_slot(old(self).names@, name@, i));
                            }
                        }
                    }
                    assert forall|k: Seq<char>| #[trigger]
                        self@.contains_key(k) == old(self)@.insert(name@, value).contains_key(
                            k,
                        ) by {
                        if old(self)@.contains_key(k) {
                            let j = choose|j: int| is_slot(old(self).names@, k, j);
                            assert(is_slot(self.names@, k, j));
                        }
                        if k == name@ {
                            assert(is_slot(self.names@, k, n));
                        }
                        if self@.contains_key(k) && k != name@ {
                            let j = choose|j: int| is_slot(self.names@, k, j);
                            assert(is_slot(old(self).names@, k, j));
                        }
                    }
                    assert forall|k: Seq<char>| #[trigger] self@.contains_key(k) implies self@[k]
                        == old(self)@.insert(name@, value)[k] by {
                        let j = choose|j: int| is_slot(self.names@, k, j);
                        self.lemma_slot(j);
                        if j < n {
                            old(self).lemma_slot(j);
                        }
                    }
                    assert(self@ =~= old(self)@.insert(name@, value));
                }
                None
            },
        }
    }

    /// Forgets `name`. Hands back what was recorded under it.
    pub fn remove(&mut self, name: &String) -> (previous: Option<V>)
        requires
            old(self).wf(),
        ensures
            final(self).wf(),
            final(self)@ == old(self)@.remove(name@),
            previous == if old(self)@.contains_key(name@) {
                Some(old(self)@[name@])
            } else {
                None
            },
    {
        match self.find(name) {
            Some(i) => {
                proof {
                    self.lemma_slot(i as int);
                }
                let _ = self.names.remove(i);
                let previous = self.values.remove(i);
                proof {
                    let at = i as int;
                    assert forall|a: int, b: int| 0 <= a < b < self.names.len() implies self.names[a]@
                        != self.names[b]@ by {
                        let a0 = if a < at { a } else { a + 1 };
                        let b0 = if b < at { b } else { b + 1 };
                        assert(self.names[a] == old(self).names[a0]);
                        assert(self.names[b] == old(self).names[b0]);
                    }
                    assert forall|k: Seq<char>| #[trigger]
                        self@.contains_key(k) == old(self)@.remove(name@).contains_key(k) by {
                        if old(self)@.contains_key(k) && k != name@ {
                            let j = choose|j: int| is_slot(old(self).names@, k, j);
                            let j1 = if j < at { j } else { j - 1 };
                            assert(is_slot(self.names@, k, j1));
                        }
                        if self@.contains_key(k) {
                            let j = choose|j: int| is_slot(self.names@, k, j);
                            let j0 = if j < at { j } else { j + 1 };
                            assert(is_slot(old(self).names@, k, j0));
                        }
                    }
                    assert forall|k: Seq<char>| #[trigger] self@.contains_key(k) implies self@[k]
                        == old(self)@.remove(name@)[k] by {
                        let j = choose|j: int| is_slot(self.names@, k, j);
                        let j0 = if j < at { j } else { j + 1 };
                        self.lemma_slot(j);
                        old(self).lemma_slot(j0);
                    }
                    assert(self@ =~= old(self)@.remove(name@));
                }
                Some(previous)
            },
            None => {
                assert(self@ =~= old(self)@.remove(name@));
                None
            },
        }
    }

    /// Forgets every name.
    pub fn clear(&mut self)
        ensures
            final(self).wf(),
            final(self)@ == Map::<Seq<char>, V>::empty(),
    {
        self.names.clear();
        self.values.clear();
        assert(self@ =~= Map::<Seq<char>, V>::empty());
    }

    /// How many names are recorded.
    pub fn len(&self) -> (count: usize)
        requires
            self.wf(),
        ensures
            count == self@.dom().len(),
    {
        proof {
            self.lemma_count(self.names.len() as int);
            assert(self@.dom() =~= self.names_upto(self.names.len() as int));
        }
        self.names.len()
    }

    proof fn lemma_count(&self, n: int)
        requires
            self.wf(),
            0 <= n <= self.names.len(),
        ensures
            self.names_upto(n).finite(),
            self.names_upto(n).len() == n,
        decreases n,
    {
        if n == 0 {
            assert(self.names_upto(0) =~= Set::<Seq<char>>::empty());
        } else {
            self.lemma_count(n - 1);
            let last = self.names[n - 1]@;
            assert(is_slot(self.names@, last, n - 1));
            assert(!self.names_upto(n - 1).contains(last)) by {
                if self.names_upto(n - 1).contains(last) {
                    let i = choose|i: int| is_slot(self.names@, last, i) && i < n - 1;
                    assert(self.names[i]@ != self.names[n - 1]@);
                }
            }
            assert(self.names_upto(n) =~= self.names_upto(n - 1).insert(last));
        }
    }
}

} // verus!
