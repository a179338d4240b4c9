//! The deduplication tracker: the identity keys seen so far in one run.
use std::collections::HashSet;
use vstd::prelude::*;

verus! {

broadcast use vstd::std_specs::hash::group_hash_axioms;

/// The keys of a sequence with every repeat dropped: the first occurrence
/// of each key stays, in the order of the sequence.
pub open spec fn dedup_first(s: Seq<i32>) -> Seq<i32>
    decreases s.len(),
{
    if s.len() == 0 {
        Seq::empty()
    } else if s.drop_last().contains(s.last()) {
        dedup_first(s.drop_last())
    } else {
        dedup_first(s.drop_last()).push(s.last())
    }
}

/// A set of keys scoped to one run, which also remembers the order in which
/// keys were first seen.
pub struct SeenSet {
    members: HashSet<i32>,
    order: Vec<i32>,
}

impl View for SeenSet {
    type V = Set<i32>;

    closed spec fn view(&self) -> Set<i32> {
        self.members@
    }
}

impl SeenSet {
    /// The keys in the order in which they were first seen.
    pub closed spec fn ids(&self) -> Seq<i32> {
        self.order@
    }

    pub closed spec fn wf(&self) -> bool {
        &&& self.order@.no_duplicates()
        &&& forall|k: i32| self.members@.contains(k) <==> self.order@.contains(k)
    }

    pub fn new() -> (s: Self)
        ensures
            s.wf(),
            s@ == Set::<i32>::empty(),
            s.ids() == Seq::<i32>::empty(),
    {
        SeenSet { members: HashSet::new(), order: Vec::new() }
    }

    /// Records a key: true on its first occurrence, false on every later one.
    pub fn insert(&mut self, key: i32) -> (first: bool)
        requires
            old(self).wf(),
        ensures
            final(self).wf(),
            first == !old(self)@.contains(key),
            final(self)@ == old(self)@.insert(key),
            final(self).ids() == if first {
                old(self).ids().push(key)
            } else {
                old(self).ids()
            },
    {
        let first = self.members.insert(key);
        if first {
            proof {
                assert(!self.order@.contains(key));
            }
            self.order.push(key);
            proof {
                assert forall|k: i32| self.members@.contains(k) <==> self.order@.contains(k) by {
                    if k != key && self.order@.contains(k) {
                        let j = self.order@.index_of(k);
                        assert(old(self).order@[j] == k);
                    }
                    if k != key && old(self).order@.contains(k) {
                        let j = old(self).order@.index_of(k);
                        assert(self.order@[j] == k);
                    }
                    if k == key {
                        assert(self.order@[self.order@.len() - 1] == key);
                    }
                }
            }
        }
        first
    }

    pub fn contains(&self, key: i32) -> (r: bool)
        requires
            self.wf(),
        ensures
            r == self@.contains(key),
    {
        self.members.contains(&key)
    }

    pub fn len(&self) -> (n: usize)
        requires
            self.wf(),
        ensures
            n == self@.len(),
            n == self.ids().len(),
    {
        proof {
            self.lemma_len_ids();
        }
        self.order.len()
    }

    /// The keys in the order in which they were first seen.
    pub fn ids_in_order(&self) -> (ids: &Vec<i32>)
        requires
            self.wf(),
        ensures
            ids@ == self.ids(),
            ids@.to_set() == self@,
            ids@.no_duplicates(),
    {
        proof {
            assert(self.order@.to_set() =~= self.members@);
        }
        &self.order
    }

    /// A well-formed set has as many keys as its first-seen order.
    pub proof fn lemma_len_ids(&self)
        requires
            self.wf(),
        ensures
            self@.len() == self.ids().len(),
    {
        self.order@.unique_seq_to_set();
        assert(self.order@.to_set() =~= self.members@);
    }
}

/// Among the keys that a dedup guard lets through, every key of the input
/// stands exactly once: it is there, and no key is there twice, wherever and
/// however often it occurs in the input.
pub proof fn lemma_dedup_exactly_once(s: Seq<i32>)
    ensures
        dedup_first(s).no_duplicates(),
        forall|k: i32| dedup_first(s).contains(k) <==> s.contains(k),
    decreases s.len(),
{
    if s.len() > 0 {
        let front = s.drop_last();
        lemma_dedup_exactly_once(front);
        assert forall|k: i32| s.contains(k) <==> (front.contains(k) || k == s.last()) by {
            if s.contains(k) {
                let j = s.index_of(k);
                if j < s.len() - 1 {
                    assert(front[j] == k);
                }
            }
            if front.contains(k) {
                let j = front.index_of(k);
                assert(s[j] == k);
            }
            if k == s.last() {
                assert(s[s.len() - 1] == k);
            }
        }
        if !front.contains(s.last()) {
            let d = dedup_first(front);
            assert forall|k: i32| d.push(s.last()).contains(k) <==> (d.contains(k) || k == s.last()) by {
                if d.push(s.last()).contains(k) {
                    let j = d.push(s.last()).index_of(k);
                    if j < d.len() {
                        assert(d[j] == k);
                    }
                }
                if d.contains(k) {
                    let j = d.index_of(k);
                    assert(d.push(s.last())[j] == k);
                }
                if k == s.last() {
                    assert(d.push(s.last())[d.len() as int] == k);
                }
            }
        }
    }
}

} // verus!
