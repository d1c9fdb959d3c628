//! The nomination catalog: for each category, the values that may be
//! proposed under it. It is read through its view, a `Map` from a
//! category's characters to the `Set` of allowed values.

use vstd::prelude::*;
use crate::registry::is_slot;

verus! {

pub struct Catalog {
    categories: Vec<String>,
    entry_categories: Vec<String>,
    entry_values: Vec<String>,
}

/// Entry `i` allows `value` under `category`.
pub open spec fn is_entry(
    categories: Seq<String>,
    values: Seq<String>,
    category: Seq<char>,
    value: Seq<char>,
    i: int,
) -> bool {
    0 <= i < categories.len() && categories[i]@ == category && values[i]@ == value
}

impl Catalog {
    /// Every entry stands under a known category.
    pub closed spec fn wf(&self) -> bool {
        &&& self.entry_categories.len() == self.entry_values.len()
        &&& forall|i: int|
            0 <= i < self.entry_categories.len() ==> self.has_category(
                #[trigger] self.entry_categories[i]@,
            )
    }

    spec fn has_category(&self, category: Seq<char>) -> bool {
        exists|i: int| is_slot(self.categories@, category, i)
    }

    spec fn allows(&self, category: Seq<char>, value: Seq<char>) -> bool {
        exists|i: int|
            is_entry(self.entry_categories@, self.entry_values@, category, value, i)
    }

    pub closed spec fn view(&self) -> Map<Seq<char>, Set<Seq<char>>> {
        Map::new(
            |category: Seq<char>| self.has_category(category),
            |category: Seq<char>| Set::new(|value: Seq<char>| self.allows(category, value)),
        )
    }

    /// Whether `value` may be proposed under `category`.
    pub open spec fn permits(&self, category: Seq<char>, value: Seq<char>) -> bool {
        self@.contains_key(category) && self@[category].contains(value)
    }

    /// A catalog without categories.
    pub fn new() -> (catalog: Catalog)
        ensures
            catalog.wf(),
            catalog@ == Map::<Seq<char>, Set<Seq<char>>>::empty(),
    {
        let catalog = Catalog {
            categories: Vec::new(),
            entry_categories: Vec::new(),
            entry_values: Vec::new(),
        };
        assert(catalog@ =~= Map::<Seq<char>, Set<Seq<char>>>::empty());
        catalog
    }

    /// Whether `category` is known.
    pub fn contains_key(&self, category: &String) -> (known: bool)
        ensures
            known == self@.contains_key(category@),
    {
        let mut i: usize = 0;
        while i < self.categories.len()
            invariant
                0 <= i <= self.categories.len(),
                forall|j: int| 0 <= j < i ==> !is_slot(self.categories@, category@, j),
            decreases self.categories.len() - i,
        {
            if self.categories[i] == *category {
                assert(is_slot(self.categories@, category@, i as int));
                return true;
            }
            i += 1;
        }
        false
    }

    /// Whether `value` may be proposed under `category`.
    pub fn contains(&self, category: &String, value: &String) -> (allowed: bool)
        requires
            self.wf(),
        ensures
            allowed == self.permits(category@, value@),
    {
        let mut i: usize = 0;
        while i < self.entry_categories.len()
            invariant
                self.wf(),
                0 <= i <= self.entry_categories.len(),
                forall|j: int|
                    0 <= j < i ==> !is_entry(
                        self.entry_categories@,
                        self.entry_values@,
                        category@,
                        value@,
                        j,
                    ),
            decreases self.entry_categories.len() - i,
        {
            if self.entry_categories[i] == *category && self.entry_values[i] == *value {
                assert(is_entry(
                    self.entry_categories@,
                    self.entry_values@,
                    category@,
                    value@,
                    i as int,
                ));
                assert(self.has_category(self.entry_categories[i as int]@));
                return true;
            }
            i += 1;
        }
        false
    }

    /// Makes `category` known; a category that is new allows no value yet.
    pub fn add_category(&mut self, category: &String)
        requires
            old(self).wf(),
        ensures
            final(self).wf(),
            final(self)@ == if old(self)@.contains_key(category@) {
                old(self)@
            } else {
                old(self)@.insert(category@, Set::<Seq<char>>::empty())
            },
    {
        if !self.contains_key(category) {
            self.categories.push(category.clone());
            proof {
                let n = old(self).categories.len() as int;
                assert(is_slot(self.categories@, category@, n));
                assert forall|c: Seq<char>|
                    self.has_category(c) == (c == category@ || old(self).has_category(c)) by {
                    if old(self).has_category(c) {
                        let j = choose|j: int| is_slot(old(self).categories@, c, j);
                        assert(is_slot(self.categories@, c, j));
                    }
                    if self.has_category(c) && c != category@ {
                        let j = choose|j: int| is_slot(self.categories@, c, j);
                        assert(is_slot(old(self).categories@, c, j));
                    }
                }
                assert(self.entry_categories@ == old(self).entry_categories@);
                assert(self.entry_values@ == old(self).entry_values@);
                assert forall|c: Seq<char>, v: Seq<char>|
                    self.allows(c, v) == old(self).allows(c, v) by {}
                assert forall|v: Seq<char>| !old(self).allows(category@, v) by {
                    if old(self).allows(category@, v) {
                        let j = choose|j: int|
                            is_entry(
                                old(self).entry_categories@,
                                old(self).entry_values@,
                                category@,
                                v,
                                j,
                            );
                        assert(old(self).has_category(old(self).entry_categories[j]@));
                    }
                }
                assert(self@ =~~= old(self)@.insert(category@, Set::<Seq<char>>::empty()));
            }
        }
    }

    /// Allows `value` under `category`, which becomes known if it was not.
    pub fn insert(&mut self, category: &String, value: &String)
        requires
            old(self).wf(),
        ensures
            final(self).wf(),
            final(self)@ == old(self)@.insert(
                category@,
                if old(self)@.contains_key(category@) {
                    old(self)@[category@].insert(value@)
                } else {
                    Set::<Seq<char>>::empty().insert(value@)
                },
            ),
    {
        self.add_category(category);
        let ghost mid = *self;
        self.entry_categories.push(category.clone());
        self.entry_values.push(value.clone());
        proof {
            let n = mid.entry_categories.len() as int;
            assert(is_entry(self.entry_categories@, self.entry_values@, category@, value@, n));
            assert(mid@.contains_key(category@));
            assert(mid.has_category(category@));
            assert(self.categories@ == mid.categories@);
            assert forall|c: Seq<char>| self.has_category(c) == mid.has_category(c) by {}
            assert forall|i: int| 0 <= i < self.entry_categories.len() implies self.has_category(
                #[trigger] self.entry_categories[i]@,
            ) by {
                if i < n {
                    assert(mid.has_category(mid.entry_categories[i]@));
                }
            }
            assert forall|c: Seq<char>, v: Seq<char>|
                self.allows(c, v) == ((c == category@ && v == value@) || mid.allows(c, v)) by {
                if mid.allows(c, v) {
                    let j = choose|j: int|
                        is_entry(mid.entry_categories@, mid.entry_values@, c, v, j);
                    assert(is_entry(self.entry_categories@, self.entry_values@, c, v, j));
                }
                if self.allows(c, v) && !(c == category@ && v == value@) {
                    let j = choose|j: int|
                        is_entry(self.entry_categories@, self.entry_values@, c, v, j);
                    assert(is_entry(mid.entry_categories@, mid.entry_values@, c, v, j));
                }
            }
            let goal = old(self)@.insert(
                category@,
                if old(self)@.contains_key(category@) {
                    old(self)@[category@].insert(value@)
                } else {
                    Set::<Seq<char>>::empty().insert(value@)
                },
            );
            assert forall|c: Seq<char>| self@.contains_key(c) == goal.contains_key(c) by {
                assert(self@.contains_key(c) == mid@.contains_key(c));
            }
            assert forall|c: Seq<char>| #[trigger] goal.contains_key(c) implies self@[c]
                =~= goal[c] by {
                assert(mid@.contains_key(c));
                assert forall|v: Seq<char>| self@[c].contains(v) == goal[c].contains(v) by {
                    assert(self@[c].contains(v) == self.allows(c, v));
                    assert(mid@[c].contains(v) == mid.allows(c, v));
                }
            }
            assert(self@ =~~= goal);
        }
    }
}

} // verus!
