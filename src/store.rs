use std::collections::HashMap;
use vstd::prelude::*;
use vstd::std_specs::iter::IteratorSpec;

use crate::advice::Advice;

verus! {

broadcast use vstd::std_specs::hash::group_hash_axioms;

/// `r` lists the records of `m`: one entry per identifier, each with the
/// text that `m` holds for it, in any order.
pub open spec fn lists_exactly(r: Seq<Advice>, m: Map<i64, Seq<char>>) -> bool {
    &&& r.len() == m.len()
    &&& forall|i: int|
        0 <= i < r.len() ==> #[trigger] m.contains_key(r[i].id) && m[r[i].id] == r[i].advice@
    &&& forall|i: int, j: int| 0 <= i < j < r.len() ==> r[i].id != r[j].id
    &&& forall|k: i64| m.contains_key(k) ==> exists|i: int| 0 <= i < r.len() && #[trigger] r[i].id == k
}

/// One change to the store, as `Store::insert` and `Store::remove` make it.
pub enum StoreOp {
    Insert(i64, Seq<char>),
    Remove(i64),
}

/// The store `m` after the change `op`.
pub open spec fn apply_op(m: Map<i64, Seq<char>>, op: StoreOp) -> Map<i64, Seq<char>> {
    match op {
        StoreOp::Insert(id, text) => m.insert(id, text),
        StoreOp::Remove(id) => m.remove(id),
    }
}

/// The store after the changes `ops`, in order, starting from `m`.
pub open spec fn apply_ops(m: Map<i64, Seq<char>>, ops: Seq<StoreOp>) -> Map<i64, Seq<char>>
    decreases ops.len(),
{
    if ops.len() == 0 {
        m
    } else {
        apply_op(apply_ops(m, ops.drop_last()), ops.last())
    }
}

/// The advice records of the service, keyed by identifier. Inserting a record
/// replaces any record with the same identifier.
pub struct Store {
    records: HashMap<i64, Advice>,
}

impl View for Store {
    type V = Map<i64, Seq<char>>;

    closed spec fn view(&self) -> Map<i64, Seq<char>> {
        Map::new(|k: i64| self.records@.contains_key(k), |k: i64| self.records@[k].advice@)
    }
}

impl Store {
    /// Every record sits under its own identifier.
    pub closed spec fn wf(&self) -> bool {
        forall|k: i64| #[trigger] self.records@.contains_key(k) ==> self.records@[k].id == k
    }

    proof fn lemma_dom(&self)
        ensures
            self@.dom() == self.records@.dom(),
    {
        assert(self@.dom() =~= self.records@.dom());
    }

    /// An empty store.
    pub fn new() -> (s: Store)
        ensures
            s.wf(),
            s@ == Map::<i64, Seq<char>>::empty(),
    {
        let s = Store { records: HashMap::new() };
        assert(s@ =~= Map::<i64, Seq<char>>::empty());
        s
    }

    /// Puts `record` under its identifier, replacing what was there.
    pub fn insert(&mut self, record: Advice)
        requires
            old(self).wf(),
        ensures
            final(self).wf(),
            final(self)@ == old(self)@.insert(record.id, record.advice@),
            final(self)@ == apply_op(old(self)@, StoreOp::Insert(record.id, record.advice@)),
    {
        let ghost text = record.advice@;
        let id = record.id;
        self.records.insert(id, record);
        assert(self@ =~= old(self)@.insert(id, text));
    }

    /// A copy of every record, one per identifier, in no particular order.
    pub fn list(&self) -> (r: Vec<Advice>)
        requires
            self.wf(),
        ensures
            lists_exactly(r@, self@),
    {
        let mut out: Vec<Advice> = Vec::new();
        let entries = self.records.iter();
        let ghost v = entries.remaining();
        assert(v.no_duplicates());
        for entry in it: entries
            invariant
                self.wf(),
                it.seq() == v,
                out@.len() == it.index(),
                forall|j: int|
                    0 <= j < out@.len() ==> #[trigger] out@[j]@ == (*v[j].1)@,
        {
            let (_k, val) = entry;
            out.push(val.clone());
        }
        proof {
            self.lemma_dom();
            assert forall|i: int| 0 <= i < out@.len() implies #[trigger] self@.contains_key(
                out@[i].id,
            ) && self@[out@[i].id] == out@[i].advice@ by {
                let k = *v[i].0;
                assert(self.records@.contains_key(k));
                assert(self.records@[k] == *v[i].1);
                assert(out@[i]@ == (*v[i].1)@);
            }
            assert forall|i: int, j: int| 0 <= i < j < out@.len() implies out@[i].id
                != out@[j].id by {
                assert(out@[i]@ == (*v[i].1)@);
                assert(out@[j]@ == (*v[j].1)@);
                let ki = *v[i].0;
                let kj = *v[j].0;
                assert(self.records@.contains_key(ki) && self.records@[ki] == *v[i].1);
                assert(self.records@.contains_key(kj) && self.records@[kj] == *v[j].1);
                if out@[i].id == out@[j].id {
                    assert(v[i] == v[j]);
                }
            }
            assert forall|k: i64| self@.contains_key(k) implies exists|i: int|
                0 <= i < out@.len() && #[trigger] out@[i].id == k by {
                assert(self.records@.contains_key(k));
                assert(v.contains((&k, &self.records@[k])));
                let i = choose|i: int| 0 <= i < v.len() && v[i] == (&k, &self.records@[k]);
                assert(out@[i]@ == (*v[i].1)@);
            }
        }
        out
    }

    /// Takes out the record with identifier `id`; says whether there was one.
    pub fn remove(&mut self, id: i64) -> (removed: bool)
        requires
            old(self).wf(),
        ensures
            final(self).wf(),
            removed == old(self)@.contains_key(id),
            final(self)@ == old(self)@.remove(id),
            final(self)@ == apply_op(old(self)@, StoreOp::Remove(id)),
            !removed ==> final(self)@ == old(self)@,
    {
        let removed = self.records.remove(&id).is_some();
        assert(self@ =~= old(self)@.remove(id));
        assert(!removed ==> self@ =~= old(self)@);
        removed
    }
}

} // verus!
