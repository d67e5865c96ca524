//! The monotonic-recency rule of the persisted indexes.
//!
//! Every statement this library builds carries the same conflict rule: a
//! new (indexed key, account key) pair is inserted, and an existing pair's
//! slot is replaced only when the stored slot is smaller than the incoming
//! one. This module states that rule over a map from pairs to slots, proves
//! that under it the persisted slot for a pair is always the maximum slot
//! ever observed for that pair — in whatever order the updates arrive — and
//! gives an executable table that follows the rule, so the behaviour can be
//! exercised without a live database.

use crate::engine::rows_view;
use crate::engine::SecondaryIndexRowModel;
use crate::engine::TokenSecondaryIndex;
use crate::token_account::bytes_equal;
use vstd::prelude::*;

verus! {

/// Key of a secondary index row: its (indexed key, account key) pair.
pub open spec fn spec_pair_key(r: SecondaryIndexRowModel) -> (Seq<u8>, Seq<u8>) {
    (r.indexed_key, r.account_key)
}

/// Effect of upserting one row under the conflict rule: a new pair is
/// inserted; an existing pair's slot is replaced only when it is smaller
/// than the incoming one, so recency never regresses.
pub open spec fn spec_apply_row(
    m: Map<(Seq<u8>, Seq<u8>), int>,
    r: SecondaryIndexRowModel,
) -> Map<(Seq<u8>, Seq<u8>), int> {
    if m.dom().contains(spec_pair_key(r)) && m[spec_pair_key(r)] >= r.slot {
        m
    } else {
        m.insert(spec_pair_key(r), r.slot)
    }
}

/// Effect of upserting a sequence of rows, in order.
pub open spec fn spec_apply_rows(
    m: Map<(Seq<u8>, Seq<u8>), int>,
    rows: Seq<SecondaryIndexRowModel>,
) -> Map<(Seq<u8>, Seq<u8>), int>
    decreases rows.len(),
{
    if rows.len() == 0 {
        m
    } else {
        spec_apply_row(spec_apply_rows(m, rows.drop_last()), rows.last())
    }
}

/// The slot a table holds for a pair, if any.
pub open spec fn spec_slot_at(
    m: Map<(Seq<u8>, Seq<u8>), int>,
    k: Seq<u8>,
    a: Seq<u8>,
) -> Option<int> {
    if m.dom().contains((k, a)) {
        Some(m[(k, a)])
    } else {
        None
    }
}

/// One step of the per-pair recency fold: a row for another pair changes
/// nothing; a row for this pair raises the held slot to its own if larger.
pub open spec fn spec_pair_step(
    cur: Option<int>,
    r: SecondaryIndexRowModel,
    k: Seq<u8>,
    a: Seq<u8>,
) -> Option<int> {
    if r.indexed_key == k && r.account_key == a {
        match cur {
            Some(s) => if s >= r.slot {
                Some(s)
            } else {
                Some(r.slot)
            },
            None => Some(r.slot),
        }
    } else {
        cur
    }
}

/// The per-pair recency fold over a sequence of rows.
pub open spec fn spec_pair_final(
    cur: Option<int>,
    rows: Seq<SecondaryIndexRowModel>,
    k: Seq<u8>,
    a: Seq<u8>,
) -> Option<int>
    decreases rows.len(),
{
    if rows.len() == 0 {
        cur
    } else {
        spec_pair_step(spec_pair_final(cur, rows.drop_last(), k, a), rows.last(), k, a)
    }
}

/// What a whole upsert sequence does to one pair is exactly the per-pair
/// recency fold over what the table held before.
pub proof fn lemma_apply_rows_tracks_pair(
    m: Map<(Seq<u8>, Seq<u8>), int>,
    rows: Seq<SecondaryIndexRowModel>,
    k: Seq<u8>,
    a: Seq<u8>,
)
    ensures
        spec_slot_at(spec_apply_rows(m, rows), k, a) == spec_pair_final(
            spec_slot_at(m, k, a),
            rows,
            k,
            a,
        ),
    decreases rows.len(),
{
    if rows.len() > 0 {
        lemma_apply_rows_tracks_pair(m, rows.drop_last(), k, a);
    }
}

/// The per-pair fold over rows that all address the pair yields a slot that
/// is attained by one of the rows and not exceeded by any of them.
pub proof fn lemma_pair_final_is_max(rows: Seq<SecondaryIndexRowModel>, k: Seq<u8>, a: Seq<u8>)
    requires
        rows.len() > 0,
        forall|i: int|
            0 <= i < rows.len() ==> (#[trigger] rows[i]).indexed_key == k && rows[i].account_key
                == a,
    ensures
        spec_pair_final(None, rows, k, a) matches Some(v) && (exists|i: int|
            0 <= i < rows.len() && (#[trigger] rows[i]).slot == v) && (forall|i: int|
            0 <= i < rows.len() ==> (#[trigger] rows[i]).slot <= v),
    decreases rows.len(),
{
    if rows.len() == 1 {
        assert(rows.last() == rows[0]);
        assert(spec_pair_final(None, rows.drop_last(), k, a) == None::<int>);
        let v = spec_pair_final(None, rows, k, a);
        assert(v == Some(rows[0].slot));
        assert(rows[0].slot == v->0);
    } else {
        let dl = rows.drop_last();
        lemma_pair_final_is_max(dl, k, a);
        let prev = spec_pair_final(None, dl, k, a);
        let v = spec_pair_final(None, rows, k, a);
        assert(v == spec_pair_step(prev, rows.last(), k, a));
        let pv = prev->0;
        if pv >= rows.last().slot {
            assert(v == Some(pv));
            let wit = choose|i: int| 0 <= i < dl.len() && (#[trigger] dl[i]).slot == pv;
            assert(rows[wit] == dl[wit]);
            assert(rows[wit].slot == v->0);
        } else {
            assert(v == Some(rows.last().slot));
            assert(rows[rows.len() - 1].slot == v->0);
        }
        assert forall|i: int| 0 <= i < rows.len() implies (#[trigger] rows[i]).slot <= v->0 by {
            if i < rows.len() - 1 {
                assert(dl[i] == rows[i]);
                assert(dl[i].slot <= pv);
            }
        }
    }
}

/// For any sequence of updates to one (indexed key, account key) pair,
/// applied to a table that does not yet hold the pair, the slot the table
/// ends with for the pair is the maximum slot among the updates.
pub proof fn lemma_final_slot_is_max(
    m: Map<(Seq<u8>, Seq<u8>), int>,
    rows: Seq<SecondaryIndexRowModel>,
    k: Seq<u8>,
    a: Seq<u8>,
)
    requires
        !m.dom().contains((k, a)),
        rows.len() > 0,
        forall|i: int|
            0 <= i < rows.len() ==> (#[trigger] rows[i]).indexed_key == k && rows[i].account_key
                == a,
    ensures
        spec_apply_rows(m, rows).dom().contains((k, a)),
        exists|i: int|
            0 <= i < rows.len() && (#[trigger] rows[i]).slot == spec_apply_rows(m, rows)[(k, a)],
        forall|i: int|
            0 <= i < rows.len() ==> (#[trigger] rows[i]).slot <= spec_apply_rows(m, rows)[(k, a)],
{
    lemma_apply_rows_tracks_pair(m, rows, k, a);
    lemma_pair_final_is_max(rows, k, a);
}

/// Delivery order does not matter: two arrival orders of the same updates
/// to a pair leave the same slot behind.
pub proof fn lemma_final_slot_order_independent(
    m: Map<(Seq<u8>, Seq<u8>), int>,
    rows1: Seq<SecondaryIndexRowModel>,
    rows2: Seq<SecondaryIndexRowModel>,
    k: Seq<u8>,
    a: Seq<u8>,
)
    requires
        !m.dom().contains((k, a)),
        rows1.len() > 0,
        rows1.to_multiset() == rows2.to_multiset(),
        forall|i: int|
            0 <= i < rows1.len() ==> (#[trigger] rows1[i]).indexed_key == k
                && rows1[i].account_key == a,
        forall|i: int|
            0 <= i < rows2.len() ==> (#[trigger] rows2[i]).indexed_key == k
                && rows2[i].account_key == a,
    ensures
        spec_apply_rows(m, rows1)[(k, a)] == spec_apply_rows(m, rows2)[(k, a)],
{
    broadcast use vstd::seq_lib::group_to_multiset_ensures;

    assert(rows2.len() > 0) by {
        assert(rows1.to_multiset().len() == rows1.len());
        assert(rows2.to_multiset().len() == rows2.len());
    }
    lemma_final_slot_is_max(m, rows1, k, a);
    lemma_final_slot_is_max(m, rows2, k, a);
    let v1 = spec_apply_rows(m, rows1)[(k, a)];
    let v2 = spec_apply_rows(m, rows2)[(k, a)];
    let i1 = choose|i: int| 0 <= i < rows1.len() && (#[trigger] rows1[i]).slot == v1;
    assert(rows1.contains(rows1[i1]));
    assert(rows1.to_multiset().count(rows1[i1]) > 0);
    assert(rows2.to_multiset().count(rows1[i1]) > 0);
    assert(rows2.contains(rows1[i1]));
    let j1 = choose|j: int| 0 <= j < rows2.len() && rows2[j] == rows1[i1];
    assert(rows2[j1].slot <= v2);
    let i2 = choose|i: int| 0 <= i < rows2.len() && (#[trigger] rows2[i]).slot == v2;
    assert(rows2.contains(rows2[i2]));
    assert(rows2.to_multiset().count(rows2[i2]) > 0);
    assert(rows1.to_multiset().count(rows2[i2]) > 0);
    assert(rows1.contains(rows2[i2]));
    let j2 = choose|j: int| 0 <= j < rows1.len() && rows1[j] == rows2[i2];
    assert(rows1[j2].slot <= v1);
}

/// Pairwise-distinct row keys.
pub open spec fn spec_keys_distinct(rows: Seq<SecondaryIndexRowModel>) -> bool {
    forall|i: int, j: int|
        #![trigger spec_pair_key(rows[i]), spec_pair_key(rows[j])]
        0 <= i < j < rows.len() ==> spec_pair_key(rows[i]) != spec_pair_key(rows[j])
}

/// The table a row sequence with distinct keys denotes.
pub open spec fn spec_table_of(rows: Seq<SecondaryIndexRowModel>) -> Map<
    (Seq<u8>, Seq<u8>),
    int,
>
    decreases rows.len(),
{
    if rows.len() == 0 {
        Map::empty()
    } else {
        spec_table_of(rows.drop_last()).insert(spec_pair_key(rows.last()), rows.last().slot)
    }
}

proof fn lemma_table_of_index(rows: Seq<SecondaryIndexRowModel>, i: int)
    requires
        spec_keys_distinct(rows),
        0 <= i < rows.len(),
    ensures
        spec_table_of(rows).dom().contains(spec_pair_key(rows[i])),
        spec_table_of(rows)[spec_pair_key(rows[i])] == rows[i].slot,
    decreases rows.len(),
{
    if i < rows.len() - 1 {
        let dl = rows.drop_last();
        assert(spec_keys_distinct(dl));
        lemma_table_of_index(dl, i);
        assert(spec_pair_key(rows[i]) != spec_pair_key(rows[rows.len() - 1]));
    }
}

proof fn lemma_table_of_absent(rows: Seq<SecondaryIndexRowModel>, key: (Seq<u8>, Seq<u8>))
    requires
        forall|i: int| 0 <= i < rows.len() ==> #[trigger] spec_pair_key(rows[i]) != key,
    ensures
        !spec_table_of(rows).dom().contains(key),
    decreases rows.len(),
{
    if rows.len() > 0 {
        lemma_table_of_absent(rows.drop_last(), key);
    }
}

proof fn lemma_table_of_update(
    rows: Seq<SecondaryIndexRowModel>,
    i: int,
    r: SecondaryIndexRowModel,
)
    requires
        spec_keys_distinct(rows),
        0 <= i < rows.len(),
        spec_pair_key(r) == spec_pair_key(rows[i]),
    ensures
        spec_table_of(rows.update(i, r)) == spec_table_of(rows).insert(spec_pair_key(r), r.slot),
    decreases rows.len(),
{
    let k = spec_pair_key(r);
    if i == rows.len() - 1 {
        assert(rows.update(i, r).drop_last() =~= rows.drop_last());
        assert(rows.update(i, r).last() == r);
        assert(spec_table_of(rows.drop_last()).insert(k, rows[i].slot).insert(k, r.slot)
            =~= spec_table_of(rows.drop_last()).insert(k, r.slot));
    } else {
        let dl = rows.drop_last();
        let last = rows.last();
        let kl = spec_pair_key(last);
        assert(spec_keys_distinct(dl));
        assert(k != kl);
        lemma_table_of_update(dl, i, r);
        assert(rows.update(i, r).drop_last() =~= dl.update(i, r));
        assert(rows.update(i, r).last() == last);
        assert(spec_table_of(dl).insert(k, r.slot).insert(kl, last.slot) =~= spec_table_of(
            dl,
        ).insert(kl, last.slot).insert(k, r.slot));
    }
}

/// An executable index table that follows the statements' conflict rule:
/// one row per (indexed key, account key) pair, whose slot only ever grows.
pub struct PersistedIndexTable {
    pub rows: Vec<TokenSecondaryIndex>,
}

impl View for PersistedIndexTable {
    type V = Map<(Seq<u8>, Seq<u8>), int>;

    open spec fn view(&self) -> Map<(Seq<u8>, Seq<u8>), int> {
        spec_table_of(rows_view(self.rows@))
    }
}

impl PersistedIndexTable {
    /// Well-formedness: one row per pair.
    pub open spec fn wf(&self) -> bool {
        spec_keys_distinct(rows_view(self.rows@))
    }

    /// An empty table.
    pub fn new() -> (t: Self)
        ensures
            t.wf(),
            t@ == Map::<(Seq<u8>, Seq<u8>), int>::empty(),
    {
        PersistedIndexTable { rows: Vec::new() }
    }

    /// Upserts one row under the conflict rule.
    pub fn upsert(&mut self, row: TokenSecondaryIndex)
        requires
            old(self).wf(),
        ensures
            final(self).wf(),
            final(self)@ == spec_apply_row(old(self)@, row@),
    {
        let ghost models = rows_view(old(self).rows@);
        let ghost k = spec_pair_key(row@);
        let mut i: usize = 0;
        while i < self.rows.len()
            invariant
                i <= self.rows@.len(),
                self.rows@ == old(self).rows@,
                models == rows_view(self.rows@),
                spec_keys_distinct(models),
                k == spec_pair_key(row@),
                forall|t: int| 0 <= t < i ==> #[trigger] spec_pair_key(models[t]) != k,
            decreases self.rows@.len() - i,
        {
            if bytes_equal(&self.rows[i].owner, &row.owner) && bytes_equal(
                &self.rows[i].account_key,
                &row.account_key,
            ) {
                proof {
                    lemma_table_of_index(models, i as int);
                }
                if self.rows[i].slot < row.slot {
                    proof {
                        lemma_table_of_update(models, i as int, row@);
                    }
                    self.rows.set(i, row);
                    proof {
                        assert(rows_view(self.rows@) =~= models.update(i as int, row@));
                        assert forall|t: int, u: int|
                            0 <= t < u < self.rows@.len() implies spec_pair_key(
                            rows_view(self.rows@)[t],
                        ) != spec_pair_key(rows_view(self.rows@)[u]) by {
                            assert(spec_pair_key(models[t]) != spec_pair_key(models[u]));
                        }
                    }
                }
                return ;
            }
            i += 1;
        }
        proof {
            lemma_table_of_absent(models, k);
        }
        self.rows.push(row);
        proof {
            assert(rows_view(self.rows@) =~= models.push(row@));
            assert(rows_view(self.rows@).drop_last() =~= models);
            assert forall|t: int, u: int|
                0 <= t < u < self.rows@.len() implies spec_pair_key(rows_view(self.rows@)[t])
                != spec_pair_key(rows_view(self.rows@)[u]) by {
                if u < self.rows@.len() - 1 {
                    assert(spec_pair_key(models[t]) != spec_pair_key(models[u]));
                } else {
                    assert(spec_pair_key(models[t]) != k);
                }
            }
        }
    }

    /// Upserts a batch of rows in buffer order.
    pub fn upsert_batch(&mut self, rows: &Vec<TokenSecondaryIndex>)
        requires
            old(self).wf(),
        ensures
            final(self).wf(),
            final(self)@ == spec_apply_rows(old(self)@, rows_view(rows@)),
    {
        let ghost all = rows_view(rows@);
        let mut i: usize = 0;
        while i < rows.len()
            invariant
                i <= rows@.len(),
                all == rows_view(rows@),
                self.wf(),
                self@ == spec_apply_rows(old(self)@, all.take(i as int)),
            decreases rows@.len() - i,
        {
            self.upsert(rows[i].clone_row());
            proof {
                assert(all.take(i + 1).drop_last() =~= all.take(i as int));
                assert(all.take(i + 1).last() == all[i as int]);
            }
            i += 1;
        }
        proof {
            assert(all.take(rows@.len() as int) =~= all);
        }
    }

    /// The slot persisted for a pair, if the pair is present.
    pub fn slot_for(&self, indexed_key: &Vec<u8>, account_key: &Vec<u8>) -> (r: Option<i64>)
        requires
            self.wf(),
        ensures
            r is Some <==> self@.dom().contains((indexed_key@, account_key@)),
            r matches Some(s) ==> s as int == self@[(indexed_key@, account_key@)],
    {
        let ghost models = rows_view(self.rows@);
        let ghost key = (indexed_key@, account_key@);
        let mut i: usize = 0;
        while i < self.rows.len()
            invariant
                i <= self.rows@.len(),
                models == rows_view(self.rows@),
                spec_keys_distinct(models),
                key == (indexed_key@, account_key@),
                forall|t: int| 0 <= t < i ==> #[trigger] spec_pair_key(models[t]) != key,
            decreases self.rows@.len() - i,
        {
            if bytes_equal(&self.rows[i].owner, indexed_key) && bytes_equal(
                &self.rows[i].account_key,
                account_key,
            ) {
                proof {
                    lemma_table_of_index(models, i as int);
                }
                return Some(self.rows[i].slot);
            }
            i += 1;
        }
        proof {
            lemma_table_of_absent(models, key);
        }
        None
    }
}

} // verus!
