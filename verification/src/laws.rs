//! The laws of the store: what holds of every well-formed store across
//! sequences of operations, proved over the spec-level transitions.

use vstd::prelude::*;

use crate::store::{
    StoreView, has_id, index_of_id, lemma_unique_index, spec_create, spec_delete, spec_get,
};

verus! {

/// In a well-formed store all ids are unique: no two positions hold
/// the same id.
pub proof fn lemma_ids_unique(s: StoreView)
    requires
        s.wf(),
    ensures
        forall|i: int, j: int|
            0 <= i < s.games.len() && 0 <= j < s.games.len() && i != j ==> (
            #[trigger] s.games[i].id) != (#[trigger] s.games[j].id),
{
    assert forall|i: int, j: int|
        0 <= i < s.games.len() && 0 <= j < s.games.len() && i != j implies (
    #[trigger] s.games[i].id) != (#[trigger] s.games[j].id) by {
        if i < j {
            assert(s.games[i].id < s.games[j].id);
        } else {
            assert(s.games[j].id < s.games[i].id);
        }
    }
}

/// Creation assigns a fresh id: one no stored game carries, after
/// which the new game is stored, the count has grown by one, and the
/// store is still well-formed.
pub proof fn lemma_create_fresh(s: StoreView, title: Seq<char>)
    requires
        s.wf(),
        s.next_id < u64::MAX,
    ensures
        ({
            let (s2, g) = spec_create(s, title);
            &&& s2.wf()
            &&& g.id == s.next_id
            &&& !has_id(s.games, g.id)
            &&& has_id(s2.games, g.id)
            &&& s2.games.len() == s.games.len() + 1
        }),
{
    let (s2, g) = spec_create(s, title);
    assert(!has_id(s.games, g.id)) by {
        if has_id(s.games, g.id) {
            let i = index_of_id(s.games, g.id);
            assert(s.games[i].id < s.next_id);
        }
    }
    assert forall|i: int, j: int| 0 <= i < j < s2.games.len() implies (
    #[trigger] s2.games[i].id) < (#[trigger] s2.games[j].id) by {
        if j < s.games.len() {
            assert(s.games[i].id < s.games[j].id);
        } else {
            assert(s.games[i].id < s.next_id);
        }
    }
    assert forall|i: int| 0 <= i < s2.games.len() implies (#[trigger] s2.games[i].id)
        < s2.next_id by {
        if i < s.games.len() {
            assert(s.games[i].id < s.next_id);
        }
    }
    assert(s2.games[s.games.len() as int] == g);
}

/// Creating a game and then looking its returned id up yields exactly
/// the created entity.
pub proof fn lemma_create_then_get(s: StoreView, title: Seq<char>)
    requires
        s.wf(),
        s.next_id < u64::MAX,
    ensures
        ({
            let (s2, g) = spec_create(s, title);
            spec_get(s2, g.id) == Some(g)
        }),
{
    let (s2, g) = spec_create(s, title);
    lemma_create_fresh(s, title);
    assert(s2.games[s.games.len() as int] == g);
    lemma_unique_index(s2, s.games.len() as int, g.id);
}

/// After a deletion succeeds the id is absent: looking it up yields
/// nothing, the count has shrunk by one, and the store is still
/// well-formed.
pub proof fn lemma_delete_then_absent(s: StoreView, id: u64)
    requires
        s.wf(),
        has_id(s.games, id),
    ensures
        spec_delete(s, id).wf(),
        spec_delete(s, id).games.len() == s.games.len() - 1,
        !has_id(spec_delete(s, id).games, id),
        spec_get(spec_delete(s, id), id) is None,
{
    let k = index_of_id(s.games, id);
    assert(0 <= k < s.games.len() && s.games[k].id == id);
    let r = s.games.remove(k);
    assert forall|j: int| 0 <= j < r.len() implies (#[trigger] r[j].id) != id by {
        if j < k {
            assert(s.games[j].id < s.games[k].id);
        } else {
            assert(s.games[k].id < s.games[j + 1].id);
        }
    }
    assert forall|a: int, b: int| 0 <= a < b < r.len() implies (#[trigger] r[a].id) < (
    #[trigger] r[b].id) by {
        let a1: int = if a < k {
            a
        } else {
            a + 1
        };
        let b1: int = if b < k {
            b
        } else {
            b + 1
        };
        assert(s.games[a1].id < s.games[b1].id);
    }
    assert forall|a: int| 0 <= a < r.len() implies (#[trigger] r[a].id) < s.next_id by {
        let a1: int = if a < k {
            a
        } else {
            a + 1
        };
        assert(s.games[a1].id < s.next_id);
    }
}

/// Two creations, in whichever order the store serializes them,
/// receive distinct ids, and both games end up stored.
pub proof fn lemma_creates_assign_distinct_ids(s: StoreView, t1: Seq<char>, t2: Seq<char>)
    requires
        s.wf(),
        s.next_id + 1 < u64::MAX,
    ensures
        ({
            let (s2, g1) = spec_create(s, t1);
            let (s3, g2) = spec_create(s2, t2);
            &&& g1.id != g2.id
            &&& has_id(s3.games, g1.id)
            &&& has_id(s3.games, g2.id)
            &&& s3.wf()
        }),
{
    let (s2, g1) = spec_create(s, t1);
    let (s3, g2) = spec_create(s2, t2);
    lemma_create_fresh(s, t1);
    lemma_create_fresh(s2, t2);
    assert(s3.games[s.games.len() as int] == g1);
}

/// One storage operation, for counting: a creation or a deletion.
pub ghost enum StoreOp {
    Create(Seq<char>),
    Delete(u64),
}

/// The store after one operation.
pub open spec fn apply_op(s: StoreView, op: StoreOp) -> StoreView {
    match op {
        StoreOp::Create(title) => spec_create(s, title).0,
        StoreOp::Delete(id) => spec_delete(s, id),
    }
}

/// The store after a sequence of operations, applied left to right.
pub open spec fn apply_ops(s: StoreView, ops: Seq<StoreOp>) -> StoreView
    decreases ops.len(),
{
    if ops.len() == 0 {
        s
    } else {
        apply_ops(apply_op(s, ops[0]), ops.skip(1))
    }
}

/// Whether each operation can succeed where it stands: a creation
/// needs an id left to assign, a deletion a present id.
pub open spec fn ops_admissible(s: StoreView, ops: Seq<StoreOp>) -> bool
    decreases ops.len(),
{
    if ops.len() == 0 {
        true
    } else {
        (match ops[0] {
            StoreOp::Create(_) => s.next_id < u64::MAX,
            StoreOp::Delete(id) => has_id(s.games, id),
        }) && ops_admissible(apply_op(s, ops[0]), ops.skip(1))
    }
}

/// How many of the operations are creations.
pub open spec fn count_creates(ops: Seq<StoreOp>) -> int
    decreases ops.len(),
{
    if ops.len() == 0 {
        0
    } else {
        (if ops[0] is Create {
            1int
        } else {
            0int
        }) + count_creates(ops.skip(1))
    }
}

/// How many of the operations are deletions.
pub open spec fn count_deletes(ops: Seq<StoreOp>) -> int
    decreases ops.len(),
{
    if ops.len() == 0 {
        0
    } else {
        (if ops[0] is Delete {
            1int
        } else {
            0int
        }) + count_deletes(ops.skip(1))
    }
}

/// After any interleaving of N creations and M deletions that can each
/// succeed, the store holds exactly N minus M more games than before —
/// so a listing after N creations and M deletions from an empty store
/// holds exactly N minus M games.
pub proof fn lemma_count_after_creates_and_deletes(s: StoreView, ops: Seq<StoreOp>)
    requires
        s.wf(),
        ops_admissible(s, ops),
    ensures
        apply_ops(s, ops).wf(),
        apply_ops(s, ops).games.len() == s.games.len() + count_creates(ops) - count_deletes(ops),
    decreases ops.len(),
{
    if ops.len() > 0 {
        let s1 = apply_op(s, ops[0]);
        match ops[0] {
            StoreOp::Create(title) => {
                lemma_create_fresh(s, title);
            },
            StoreOp::Delete(id) => {
                lemma_delete_then_absent(s, id);
            },
        }
        lemma_count_after_creates_and_deletes(s1, ops.skip(1));
    }
}

} // verus!
