use vstd::prelude::*;

verus! {

/// A set of input ids, kept in the order in which they were added.
#[derive(Clone, Debug)]
pub struct IdSet {
    ids: Vec<u64>,
}

impl View for IdSet {
    type V = Set<u64>;

    closed spec fn view(&self) -> Set<u64> {
        self.ids@.to_set()
    }
}

impl IdSet {
    /// No id is stored twice.
    pub closed spec fn wf(&self) -> bool {
        self.ids@.no_duplicates()
    }

    /// The ids in the order in which they were added.
    pub closed spec fn order(&self) -> Seq<u64> {
        self.ids@
    }

    pub proof fn lemma_order(&self)
        requires
            self.wf(),
        ensures
            self.order().no_duplicates(),
            self.order().to_set() == self@,
            self.order().len() == self@.len(),
            self@.finite(),
    {
        self.ids@.unique_seq_to_set();
    }

    pub fn new() -> (s: IdSet)
        ensures
            s.wf(),
            s@ == Set::<u64>::empty(),
            s.order() == Seq::<u64>::empty(),
    {
        let s = IdSet { ids: Vec::new() };
        assert(s@ =~= Set::<u64>::empty());
        s
    }

    pub fn contains(&self, id: u64) -> (r: bool)
        ensures
            r == self@.contains(id),
    {
        let mut i: usize = 0;
        while i < self.ids.len()
            invariant
                0 <= i <= self.ids@.len(),
                forall|k: int| 0 <= k < i ==> self.ids@[k] != id,
            decreases self.ids@.len() - i,
        {
            if self.ids[i] == id {
                return true;
            }
            i += 1;
        }
        false
    }

    /// Adds `id`; returns whether it was absent.
    pub fn insert(&mut self, id: u64) -> (added: bool)
        requires
            old(self).wf(),
        ensures
            final(self).wf(),
            final(self)@ == old(self)@.insert(id),
            added == !old(self)@.contains(id),
            added ==> final(self).order() == old(self).order().push(id),
            !added ==> final(self).order() == old(self).order(),
    {
        if self.contains(id) {
            assert(self@.insert(id) =~= self@);
            false
        } else {
            let ghost before = self.ids@;
            self.ids.push(id);
            assert(self.ids@.to_set() =~= before.to_set().insert(id)) by {
                assert(forall|x: u64| self.ids@.contains(x) <==> (before.contains(x) || x == id)) by {
                    assert forall|x: u64| self.ids@.contains(x) implies (before.contains(x) || x == id) by {
                        let k = choose|k: int| 0 <= k < self.ids@.len() && self.ids@[k] == x;
                        if k < before.len() {
                            assert(before[k] == x);
                        }
                    }
                    assert forall|x: u64| before.contains(x) implies self.ids@.contains(x) by {
                        let k = choose|k: int| 0 <= k < before.len() && before[k] == x;
                        assert(self.ids@[k] == x);
                    }
                    assert(self.ids@[before.len() as int] == id);
                }
            }
            true
        }
    }

    /// Removes `id`; returns whether it was present.
    pub fn remove(&mut self, id: u64) -> (removed: bool)
        requires
            old(self).wf(),
        ensures
            final(self).wf(),
            final(self)@ == old(self)@.remove(id),
            removed == old(self)@.contains(id),
    {
        let mut i: usize = 0;
        while i < self.ids.len()
            invariant
                0 <= i <= self.ids@.len(),
                forall|k: int| 0 <= k < i ==> self.ids@[k] != id,
                self.ids@ == old(self).ids@,
                self.ids@.no_duplicates(),
            decreases self.ids@.len() - i,
        {
            if self.ids[i] == id {
                let ghost before = self.ids@;
                self.ids.remove(i);
                assert(before[i as int] == id);
                assert(self.ids@.to_set() =~= before.to_set().remove(id)) by {
                    assert forall|x: u64| self.ids@.contains(x) implies (before.contains(x) && x != id) by {
                        let k = choose|k: int| 0 <= k < self.ids@.len() && self.ids@[k] == x;
                        if k < i {
                            assert(before[k] == x);
                        } else {
                            assert(before[k + 1] == x);
                            assert(k + 1 != i);
                        }
                    }
                    assert forall|x: u64| before.contains(x) && x != id implies self.ids@.contains(x) by {
                        let k = choose|k: int| 0 <= k < before.len() && before[k] == x;
                        if k < i {
                            assert(self.ids@[k] == x);
                        } else {
                            assert(k != i);
                            assert(self.ids@[k - 1] == x);
                        }
                    }
                }
                assert(self.ids@.no_duplicates()) by {
                    assert forall|a: int, b: int|
                        0 <= a < self.ids@.len() && 0 <= b < self.ids@.len() && a != b
                        implies self.ids@[a] != self.ids@[b] by {
                        let a2 = if a < i { a } else { a + 1 };
                        let b2 = if b < i { b } else { b + 1 };
                        assert(before[a2] != before[b2]);
                    }
                }
                return true;
            }
            i += 1;
        }
        assert(self@.remove(id) =~= self@);
        false
    }

    pub fn clear(&mut self)
        ensures
            final(self).wf(),
            final(self)@ == Set::<u64>::empty(),
            final(self).order() == Seq::<u64>::empty(),
    {
        self.ids.clear();
        assert(self.ids@.to_set() =~= Set::<u64>::empty());
    }

    pub fn len(&self) -> (n: usize)
        requires
            self.wf(),
        ensures
            n == self@.len(),
            n == self.order().len(),
    {
        proof {
            self.ids@.unique_seq_to_set();
        }
        self.ids.len()
    }

    /// The ids, oldest first.
    pub fn to_vec(&self) -> (v: Vec<u64>)
        ensures
            v@ == self.order(),
    {
        self.ids.clone()
    }
}

} // verus!
