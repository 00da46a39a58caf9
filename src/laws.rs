use vstd::prelude::*;

use crate::advice::Advice;
use crate::ident::decimal_i64;
use crate::service::{
    delete_outcome, delete_status_of, ServiceError, STATUS_NOT_FOUND, STATUS_NO_CONTENT,
};
use crate::store::{apply_ops, lists_exactly, StoreOp};

verus! {

/// `id` was inserted by one of `ops` and not removed by a later one.
pub open spec fn inserted_and_kept(ops: Seq<StoreOp>, id: i64) -> bool {
    exists|i: int|
        0 <= i < ops.len() && (#[trigger] ops[i]) is Insert && ops[i]->Insert_0 == id && forall|
            j: int,
        |
            i < j < ops.len() ==> #[trigger] ops[j] != StoreOp::Remove(id)
}

proof fn lemma_live_ids(ops: Seq<StoreOp>, id: i64)
    ensures
        apply_ops(Map::empty(), ops).contains_key(id) <==> inserted_and_kept(ops, id),
    decreases ops.len(),
{
    if ops.len() > 0 {
        let init = ops.drop_last();
        let n = ops.len() - 1;
        lemma_live_ids(init, id);
        if apply_ops(Map::empty(), ops).contains_key(id) {
            match ops.last() {
                StoreOp::Insert(k, _) => {
                    if k == id {
                        assert(ops[n] is Insert && ops[n]->Insert_0 == id);
                    } else {
                        let i = choose|i: int|
                            0 <= i < init.len() && (#[trigger] init[i]) is Insert
                                && init[i]->Insert_0 == id && forall|j: int|
                                i < j < init.len() ==> #[trigger] init[j] != StoreOp::Remove(id);
                        assert(ops[i] == init[i]);
                        assert forall|j: int| i < j < ops.len() implies #[trigger] ops[j]
                            != StoreOp::Remove(id) by {
                            if j < n {
                                assert(ops[j] == init[j]);
                            }
                        }
                    }
                },
                StoreOp::Remove(k) => {
                    let i = choose|i: int|
                        0 <= i < init.len() && (#[trigger] init[i]) is Insert && init[i]->Insert_0
                            == id && forall|j: int|
                            i < j < init.len() ==> #[trigger] init[j] != StoreOp::Remove(id);
                    assert(ops[i] == init[i]);
                    assert forall|j: int| i < j < ops.len() implies #[trigger] ops[j]
                        != StoreOp::Remove(id) by {
                        if j < n {
                            assert(ops[j] == init[j]);
                        }
                    }
                },
            }
        }
        if inserted_and_kept(ops, id) {
            let i = choose|i: int|
                0 <= i < ops.len() && (#[trigger] ops[i]) is Insert && ops[i]->Insert_0 == id
                    && forall|j: int| i < j < ops.len() ==> #[trigger] ops[j] != StoreOp::Remove(id);
            if i < n {
                assert(init[i] == ops[i]);
                assert forall|j: int| i < j < init.len() implies #[trigger] init[j]
                    != StoreOp::Remove(id) by {
                    assert(init[j] == ops[j]);
                }
                assert(ops[n] != StoreOp::Remove(id));
            }
        }
    }
}

/// After any run of inserts and removes on an empty store, a listing holds
/// exactly the identifiers that were inserted and not removed afterwards.
pub proof fn lemma_list_after_ops(ops: Seq<StoreOp>, r: Seq<Advice>)
    requires
        lists_exactly(r, apply_ops(Map::empty(), ops)),
    ensures
        forall|id: i64|
            (exists|i: int| 0 <= i < r.len() && #[trigger] r[i].id == id) <==> inserted_and_kept(
                ops,
                id,
            ),
{
    let m = apply_ops(Map::empty(), ops);
    assert forall|id: i64|
        (exists|i: int| 0 <= i < r.len() && #[trigger] r[i].id == id) <==> inserted_and_kept(
            ops,
            id,
        ) by {
        lemma_live_ids(ops, id);
        if exists|i: int| 0 <= i < r.len() && #[trigger] r[i].id == id {
            let i = choose|i: int| 0 <= i < r.len() && #[trigger] r[i].id == id;
            assert(m.contains_key(r[i].id));
        }
    }
}

/// A listing taken right after an insert holds the inserted record, with the
/// same identifier and text.
pub proof fn lemma_inserted_is_listed(m: Map<i64, Seq<char>>, a: Advice, r: Seq<Advice>)
    requires
        lists_exactly(r, m.insert(a.id, a.advice@)),
    ensures
        exists|i: int| 0 <= i < r.len() && (#[trigger] r[i])@ == a@,
{
    let m1 = m.insert(a.id, a.advice@);
    assert(m1.contains_key(a.id));
    let i = choose|i: int| 0 <= i < r.len() && #[trigger] r[i].id == a.id;
    assert(m1.contains_key(r[i].id));
}

/// Removing an identifier that the store does not hold changes nothing: what
/// lists the store before lists it after.
pub proof fn lemma_remove_absent(m: Map<i64, Seq<char>>, id: i64, r: Seq<Advice>)
    requires
        !m.contains_key(id),
    ensures
        m.remove(id) == m,
        lists_exactly(r, m) <==> lists_exactly(r, m.remove(id)),
{
    assert(m.remove(id) =~= m);
}

/// The inserts of the records `recs`, in order.
pub open spec fn inserts_of(recs: Seq<(i64, Seq<char>)>) -> Seq<StoreOp> {
    recs.map_values(|p: (i64, Seq<char>)| StoreOp::Insert(p.0, p.1))
}

/// No two of `recs` share an identifier.
pub open spec fn distinct_ids(recs: Seq<(i64, Seq<char>)>) -> bool {
    forall|i: int, j: int| 0 <= i < j < recs.len() ==> recs[i].0 != recs[j].0
}

proof fn lemma_inserts_dom(recs: Seq<(i64, Seq<char>)>)
    ensures
        apply_ops(Map::empty(), inserts_of(recs)).dom() == recs.map_values(
            |p: (i64, Seq<char>)| p.0,
        ).to_set(),
        forall|i: int|
            0 <= i < recs.len() && (forall|j: int| i < j < recs.len() ==> recs[j].0 != recs[i].0)
                ==> #[trigger] apply_ops(Map::empty(), inserts_of(recs))[recs[i].0] == recs[i].1,
    decreases recs.len(),
{
    let ids = recs.map_values(|p: (i64, Seq<char>)| p.0);
    if recs.len() > 0 {
        let init = recs.drop_last();
        lemma_inserts_dom(init);
        assert(inserts_of(recs).drop_last() =~= inserts_of(init));
        let init_ids = init.map_values(|p: (i64, Seq<char>)| p.0);
        assert(ids =~= init_ids.push(recs.last().0));
        init_ids.lemma_push_to_set_commute(recs.last().0);
        assert forall|i: int|
            0 <= i < recs.len() && (forall|j: int| i < j < recs.len() ==> recs[j].0 != recs[i].0)
                implies #[trigger] apply_ops(Map::empty(), inserts_of(recs))[recs[i].0]
            == recs[i].1 by {
            if i < recs.len() - 1 {
                assert(init[i] == recs[i]);
                assert forall|j: int| i < j < init.len() implies init[j].0 != init[i].0 by {
                    assert(init[j] == recs[j]);
                }
                assert(recs[recs.len() - 1].0 != recs[i].0);
            }
        }
    } else {
        assert(ids.to_set() =~= Set::empty());
        assert(apply_ops(Map::empty(), inserts_of(recs)).dom() =~= Set::empty());
    }
}

/// Inserts of records with distinct identifiers, in any order that a lock
/// lets them run in, lose none of them: a listing afterwards holds one
/// record per insert, each with the text that was inserted.
pub proof fn lemma_distinct_inserts_kept(recs: Seq<(i64, Seq<char>)>, r: Seq<Advice>)
    requires
        distinct_ids(recs),
        lists_exactly(r, apply_ops(Map::empty(), inserts_of(recs))),
    ensures
        r.len() == recs.len(),
        forall|i: int|
            #![trigger recs[i]]
            0 <= i < recs.len() ==> exists|j: int| 0 <= j < r.len() && (#[trigger] r[j])@ == recs[i],
{
    let m = apply_ops(Map::empty(), inserts_of(recs));
    let ids = recs.map_values(|p: (i64, Seq<char>)| p.0);
    lemma_inserts_dom(recs);
    assert(ids.no_duplicates()) by {
        assert forall|i: int, j: int| 0 <= i < ids.len() && 0 <= j < ids.len() && i != j implies ids[i]
            != ids[j] by {
            if i < j {
                assert(recs[i].0 != recs[j].0);
            } else {
                assert(recs[j].0 != recs[i].0);
            }
        }
    }
    ids.unique_seq_to_set();
    assert forall|i: int|
        #![trigger recs[i]]
        0 <= i < recs.len() implies exists|j: int|
        0 <= j < r.len() && (#[trigger] r[j])@ == recs[i] by {
        assert(ids[i] == recs[i].0);
        assert(m.dom().contains(recs[i].0));
        let j = choose|j: int| 0 <= j < r.len() && #[trigger] r[j].id == recs[i].0;
        assert(m.contains_key(r[j].id));
        assert(forall|k: int| i < k < recs.len() ==> recs[k].0 != recs[i].0);
        assert(m[recs[i].0] == recs[i].1);
    }
}

/// A delete right after a create of the same identifier succeeds, with
/// `204`, and a second delete of it finds nothing, with `404`.
pub proof fn lemma_delete_after_create(m: Map<i64, Seq<char>>, a: Advice, segment: Seq<char>)
    requires
        decimal_i64(segment) == Some(a.id),
    ensures
        delete_outcome(m.insert(a.id, a.advice@), segment) == Ok::<(), ServiceError>(()),
        delete_outcome(m.insert(a.id, a.advice@).remove(a.id), segment) == Err::<(), ServiceError>(
            ServiceError::NotFound,
        ),
        delete_status_of(delete_outcome(m.insert(a.id, a.advice@), segment)) == STATUS_NO_CONTENT,
        delete_status_of(delete_outcome(m.insert(a.id, a.advice@).remove(a.id), segment))
            == STATUS_NOT_FOUND,
{
}

} // verus!
