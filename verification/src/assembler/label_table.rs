use vstd::prelude::*;

verus! {

/// A table from label names to values, with each name at most once.
pub struct LabelTable<V> {
    entries: Vec<(String, V)>,
}

impl<V> LabelTable<V> {
    /// No name occurs twice.
    pub closed spec fn wf(&self) -> bool {
        forall|i: int, j: int|
            0 <= i < j < self.entries@.len() ==> #[trigger] self.entries@[i].0@ != #[trigger] self.entries@[j].0@
    }

    spec fn has_at(&self, k: Seq<char>, i: int) -> bool {
        0 <= i < self.entries@.len() && self.entries@[i].0@ == k
    }

    /// The names and their values.
    pub closed spec fn map(&self) -> Map<Seq<char>, V> {
        Map::new(
            |k: Seq<char>| exists|i: int| self.has_at(k, i),
            |k: Seq<char>| self.entries@[choose|i: int| self.has_at(k, i)].1,
        )
    }

    proof fn lemma_lookup(&self, i: int)
        requires
            self.wf(),
            0 <= i < self.entries@.len(),
        ensures
            self.map().contains_key(self.entries@[i].0@),
            self.map()[self.entries@[i].0@] == self.entries@[i].1,
    {
        let k = self.entries@[i].0@;
        assert(self.has_at(k, i));
        let j = choose|j: int| self.has_at(k, j);
        assert(self.has_at(k, j));
        if i < j {
            assert(self.entries@[i].0@ != self.entries@[j].0@);
        } else if j < i {
            assert(self.entries@[j].0@ != self.entries@[i].0@);
        }
    }

    /// An empty table.
    pub fn new() -> (t: Self)
        ensures
            t.wf(),
            t.map() == Map::<Seq<char>, V>::empty(),
    {
        let t = LabelTable { entries: Vec::new() };
        assert(t.map() =~= Map::<Seq<char>, V>::empty());
        t
    }

    fn find(&self, key: &String) -> (r: Option<usize>)
        requires
            self.wf(),
        ensures
            r matches Some(i) ==> self.has_at(key@, i as int),
            r is None ==> !self.map().contains_key(key@),
    {
        let mut i: usize = 0;
        while i < self.entries.len()
            invariant
                i <= self.entries@.len(),
                forall|j: int| 0 <= j < i ==> self.entries@[j].0@ != key@,
            decreases self.entries@.len() - i,
        {
            if self.entries[i].0 == *key {
                return Some(i);
            }
            i = i + 1;
        }
        proof {
            if self.map().contains_key(key@) {
                let j = choose|j: int| self.has_at(key@, j);
                assert(self.has_at(key@, j));
            }
        }
        None
    }

    /// Whether `key` has a value.
    pub fn contains_key(&self, key: &String) -> (b: bool)
        requires
            self.wf(),
        ensures
            b == self.map().contains_key(key@),
    {
        match self.find(key) {
            Some(i) => {
                proof { self.lemma_lookup(i as int); }
                true
            },
            None => false,
        }
    }

    /// The value of `key`, if it has one.
    pub fn get(&self, key: &String) -> (r: Option<&V>)
        requires
            self.wf(),
        ensures
            r matches Some(v) ==> self.map().contains_key(key@) && self.map()[key@] == *v,
            r is None ==> !self.map().contains_key(key@),
    {
        match self.find(key) {
            Some(i) => {
                proof { self.lemma_lookup(i as int); }
                Some(&self.entries[i].1)
            },
            None => None,
        }
    }

    /// Gives `key` the value `value`, replacing any earlier value.
    pub fn insert(&mut self, key: String, value: V)
        requires
            old(self).wf(),
        ensures
            final(self).wf(),
            final(self).map() == old(self).map().insert(key@, value),
    {
        let ghost old_map = self.map();
        let ghost k = key@;
        match self.find(&key) {
            Some(i) => {
                self.entries.set(i, (key, value));
                proof {
                    assert forall|a: int, b: int| 0 <= a < b < self.entries@.len() implies
                        #[trigger] self.entries@[a].0@ != #[trigger] self.entries@[b].0@ by {
                        assert(old(self).wf());
                        if a != i as int && b != i as int {
                            assert(old(self).entries@[a].0@ != old(self).entries@[b].0@);
                        } else if a == i as int {
                            assert(old(self).entries@[a].0@ != old(self).entries@[b].0@);
                        } else {
                            assert(old(self).entries@[a].0@ != old(self).entries@[b].0@);
                        }
                    }
                    assert forall|q: Seq<char>| #[trigger] self.map().contains_key(q) <==> old_map.insert(k, value).contains_key(q) by {
                        if self.map().contains_key(q) {
                            let j = choose|j: int| self.has_at(q, j);
                            assert(self.has_at(q, j));
                            if j != i as int {
                                assert(old(self).has_at(q, j));
                            }
                        }
                        if old_map.contains_key(q) {
                            let j = choose|j: int| old(self).has_at(q, j);
                            assert(old(self).has_at(q, j));
                            assert(self.has_at(q, j));
                        }
                        if q == k {
                            assert(self.has_at(q, i as int));
                        }
                    }
                    assert forall|q: Seq<char>| #[trigger] self.map().contains_key(q) implies self.map()[q] == old_map.insert(k, value)[q] by {
                        let j = choose|j: int| self.has_at(q, j);
                        assert(self.has_at(q, j));
                        self.lemma_lookup(j);
                        if j != i as int {
                            assert(old(self).has_at(q, j));
                            old(self).lemma_lookup(j);
                        }
                    }
                    assert(self.map() =~= old_map.insert(k, value));
                }
            },
            None => {
                self.entries.push((key, value));
                proof {
                    let n = old(self).entries@.len() as int;
                    assert forall|a: int, b: int| 0 <= a < b < self.entries@.len() implies
                        #[trigger] self.entries@[a].0@ != #[trigger] self.entries@[b].0@ by {
                        if b == n {
                            assert(old(self).has_at(self.entries@[a].0@, a));
                        } else {
                            assert(old(self).entries@[a].0@ != old(self).entries@[b].0@);
                        }
                    }
                    assert forall|q: Seq<char>| #[trigger] self.map().contains_key(q) <==> old_map.insert(k, value).contains_key(q) by {
                        if self.map().contains_key(q) {
                            let j = choose|j: int| self.has_at(q, j);
                            assert(self.has_at(q, j));
                            if j != n {
                                assert(old(self).has_at(q, j));
                            }
                        }
                        if old_map.contains_key(q) {
                            let j = choose|j: int| old(self).has_at(q, j);
                            assert(old(self).has_at(q, j));
                            assert(self.has_at(q, j));
                        }
                        if q == k {
                            assert(self.has_at(q, n));
                        }
                    }
                    assert forall|q: Seq<char>| #[trigger] self.map().contains_key(q) implies self.map()[q] == old_map.insert(k, value)[q] by {
                        let j = choose|j: int| self.has_at(q, j);
                        assert(self.has_at(q, j));
                        self.lemma_lookup(j);
                        if j != n {
                            assert(old(self).has_at(q, j));
                            old(self).lemma_lookup(j);
                        }
                    }
                    assert(self.map() =~= old_map.insert(k, value));
                }
            },
        }
    }
}

} // verus!
