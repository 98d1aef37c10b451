//! A list of orders keyed by their `order_uid`, with a `Map` view.
//! Both the cache and the in-memory store double are built on it.
use vstd::prelude::*;

use crate::model::{Order, OrderView};

verus! {

/// No two rows share an `order_uid`.
pub open spec fn unique_uids(rows: Seq<OrderView>) -> bool {
    forall|i: int, j: int|
        0 <= i < j < rows.len() ==> rows[i].order_uid != rows[j].order_uid
}

/// Some row carries this `order_uid`.
pub open spec fn has_uid(rows: Seq<OrderView>, k: Seq<char>) -> bool {
    exists|i: int| 0 <= i < rows.len() && rows[i].order_uid == k
}

/// Index of the first row carrying this `order_uid`.
pub open spec fn idx_of(rows: Seq<OrderView>, k: Seq<char>) -> int
    decreases rows.len(),
{
    if rows.len() == 0 {
        0
    } else if rows[0].order_uid == k {
        0
    } else {
        1 + idx_of(rows.drop_first(), k)
    }
}

/// The rows as a mapping from `order_uid` to document; later rows win,
/// though under [`unique_uids`] there is at most one row per key.
pub open spec fn map_of(rows: Seq<OrderView>) -> Map<Seq<char>, OrderView>
    decreases rows.len(),
{
    if rows.len() == 0 {
        Map::empty()
    } else {
        map_of(rows.drop_last()).insert(rows.last().order_uid, rows.last())
    }
}

/// A key is in the mapping exactly when some row carries it.
pub proof fn lemma_map_of_contains(rows: Seq<OrderView>, k: Seq<char>)
    ensures
        map_of(rows).contains_key(k) <==> has_uid(rows, k),
    decreases rows.len(),
{
    if rows.len() > 0 {
        lemma_map_of_contains(rows.drop_last(), k);
        if has_uid(rows.drop_last(), k) {
            let i = choose|i: int|
                0 <= i < rows.drop_last().len() && rows.drop_last()[i].order_uid == k;
            assert(rows[i].order_uid == k);
        }
        if rows.last().order_uid == k {
            assert(rows[rows.len() - 1].order_uid == k);
        }
        if has_uid(rows, k) && rows.last().order_uid != k {
            let i = choose|i: int| 0 <= i < rows.len() && rows[i].order_uid == k;
            assert(rows.drop_last()[i].order_uid == k);
        }
    }
}

/// Under unique keys, a row's value is what the mapping holds for its key.
pub proof fn lemma_map_of_index(rows: Seq<OrderView>, i: int)
    requires
        unique_uids(rows),
        0 <= i < rows.len(),
    ensures
        map_of(rows).contains_key(rows[i].order_uid),
        map_of(rows)[rows[i].order_uid] == rows[i],
    decreases rows.len(),
{
    lemma_map_of_contains(rows, rows[i].order_uid);
    if i < rows.len() - 1 {
        assert(rows.drop_last()[i] == rows[i]);
        lemma_map_of_index(rows.drop_last(), i);
        assert(rows.last().order_uid != rows[i].order_uid);
    }
}

/// Every document in the mapping sits under its own `order_uid`.
pub proof fn lemma_map_of_key(rows: Seq<OrderView>, k: Seq<char>)
    requires
        map_of(rows).contains_key(k),
    ensures
        map_of(rows)[k].order_uid == k,
    decreases rows.len(),
{
    if rows.len() > 0 {
        if rows.last().order_uid != k {
            lemma_map_of_key(rows.drop_last(), k);
        }
    }
}

/// Appending a fresh row inserts its document into the mapping.
pub proof fn lemma_map_of_push(rows: Seq<OrderView>, o: OrderView)
    ensures
        map_of(rows.push(o)) == map_of(rows).insert(o.order_uid, o),
{
    assert(rows.push(o).drop_last() =~= rows);
    assert(rows.push(o).last() == o);
}

/// Overwriting the row that carries a key updates the mapping at that key,
/// provided the new document keeps the key.
pub proof fn lemma_map_of_update(rows: Seq<OrderView>, i: int, o: OrderView)
    requires
        unique_uids(rows),
        0 <= i < rows.len(),
        rows[i].order_uid == o.order_uid,
    ensures
        map_of(rows.update(i, o)) == map_of(rows).insert(o.order_uid, o),
    decreases rows.len(),
{
    let rows2 = rows.update(i, o);
    if i == rows.len() - 1 {
        assert(rows2.drop_last() =~= rows.drop_last());
        assert(rows2.last() == o);
        assert(map_of(rows2) == map_of(rows.drop_last()).insert(o.order_uid, o));
        assert(map_of(rows) == map_of(rows.drop_last()).insert(o.order_uid, rows[i]));
        assert(map_of(rows2) =~= map_of(rows).insert(o.order_uid, o));
    } else {
        assert(rows2.drop_last() =~= rows.drop_last().update(i, o));
        assert(rows2.last() == rows.last());
        assert(rows.drop_last()[i] == rows[i]);
        lemma_map_of_update(rows.drop_last(), i, o);
        assert(rows.last().order_uid != o.order_uid);
        assert(map_of(rows2) =~= map_of(rows).insert(o.order_uid, o));
    }
}

/// Unique keys survive appending a fresh row.
pub proof fn lemma_unique_push(rows: Seq<OrderView>, o: OrderView)
    requires
        unique_uids(rows),
        !has_uid(rows, o.order_uid),
    ensures
        unique_uids(rows.push(o)),
{
    let rows2 = rows.push(o);
    assert forall|i: int, j: int| 0 <= i < j < rows2.len() implies rows2[i].order_uid
        != rows2[j].order_uid by {
        if j == rows.len() {
            assert(rows2[i] == rows[i]);
            if rows[i].order_uid == o.order_uid {
                assert(has_uid(rows, o.order_uid));
            }
        } else {
            assert(rows2[i] == rows[i] && rows2[j] == rows[j]);
        }
    }
}

/// Unique keys survive overwriting a row with one that keeps its key.
pub proof fn lemma_unique_update(rows: Seq<OrderView>, i: int, o: OrderView)
    requires
        unique_uids(rows),
        0 <= i < rows.len(),
        rows[i].order_uid == o.order_uid,
    ensures
        unique_uids(rows.update(i, o)),
{
}

/// A list of order documents in which each `order_uid` appears at most once.
pub struct OrderTable {
    pub rows: Vec<Order>,
}

impl OrderTable {
    /// The rows in their stored sequence.
    pub open spec fn rows_view(&self) -> Seq<OrderView> {
        self.rows.deep_view()
    }

    /// The rows as a mapping from `order_uid` to document.
    pub open spec fn map_view(&self) -> Map<Seq<char>, OrderView> {
        map_of(self.rows_view())
    }

    /// Well-formed: no two rows share an `order_uid`.
    pub open spec fn wf(&self) -> bool {
        unique_uids(self.rows_view())
    }

    /// An empty table.
    pub fn new() -> (r: Self)
        ensures
            r.wf(),
            r.rows_view() == Seq::<OrderView>::empty(),
            r.map_view() == Map::<Seq<char>, OrderView>::empty(),
    {
        let r = OrderTable { rows: Vec::new() };
        proof {
            assert(r.rows_view() =~= Seq::<OrderView>::empty());
        }
        r
    }

    /// Position of the row carrying this key, if any.
    fn find(&self, id: &String) -> (r: Option<usize>)
        requires
            self.wf(),
        ensures
            match r {
                Some(i) => {
                    &&& i < self.rows_view().len()
                    &&& self.rows_view()[i as int].order_uid == id@
                    &&& self.map_view().contains_key(id@)
                    &&& self.map_view()[id@] == self.rows_view()[i as int]
                },
                None => !self.map_view().contains_key(id@),
            },
    {
        let n = self.rows.len();
        let mut i: usize = 0;
        while i < n
            invariant
                self.wf(),
                n == self.rows.len(),
                i <= n,
                forall|j: int| 0 <= j < i ==> self.rows_view()[j].order_uid != id@,
            decreases n - i,
        {
            if self.rows[i].order_uid == *id {
                proof {
                    lemma_map_of_index(self.rows_view(), i as int);
                }
                return Some(i);
            }
            i = i + 1;
        }
        proof {
            lemma_map_of_contains(self.rows_view(), id@);
        }
        None
    }

    /// A copy of the document stored under this key, if any.
    pub fn get(&self, id: &String) -> (r: Option<Order>)
        requires
            self.wf(),
        ensures
            match r {
                Some(o) => {
                    &&& self.map_view().contains_key(id@)
                    &&& o@ == self.map_view()[id@]
                },
                None => !self.map_view().contains_key(id@),
            },
    {
        match self.find(id) {
            Some(i) => Some(self.rows[i].clone()),
            None => None,
        }
    }

    /// Whether a document is stored under this key.
    pub fn contains(&self, id: &String) -> (r: bool)
        requires
            self.wf(),
        ensures
            r == self.map_view().contains_key(id@),
    {
        match self.find(id) {
            Some(_) => true,
            None => false,
        }
    }

    /// Stores the document under its own `order_uid`, overwriting the row
    /// that carried that key or appending a fresh row.
    pub fn upsert(&mut self, o: &Order)
        requires
            old(self).wf(),
        ensures
            final(self).wf(),
            final(self).map_view() == old(self).map_view().insert(o@.order_uid, o@),
            final(self).rows_view() == if has_uid(old(self).rows_view(), o@.order_uid) {
                old(self).rows_view().update(
                    idx_of(old(self).rows_view(), o@.order_uid),
                    o@,
                )
            } else {
                old(self).rows_view().push(o@)
            },
    {
        let uid = o.order_uid.clone();
        match self.find(&uid) {
            Some(i) => {
                proof {
                    lemma_idx_of_first(old(self).rows_view(), i as int);
                    lemma_unique_update(old(self).rows_view(), i as int, o@);
                    lemma_map_of_update(old(self).rows_view(), i as int, o@);
                }
                self.rows.set(i, o.clone());
                proof {
                    assert(self.rows_view() =~= old(self).rows_view().update(i as int, o@));
                }
            },
            None => {
                proof {
                    lemma_map_of_contains(old(self).rows_view(), o@.order_uid);
                    lemma_unique_push(old(self).rows_view(), o@);
                    lemma_map_of_push(old(self).rows_view(), o@);
                }
                self.rows.push(o.clone());
                proof {
                    assert(self.rows_view() =~= old(self).rows_view().push(o@));
                }
            },
        }
    }
}

/// When some row carries the key, [`idx_of`] points at one that does.
pub proof fn lemma_idx_of_has(rows: Seq<OrderView>, k: Seq<char>)
    requires
        has_uid(rows, k),
    ensures
        0 <= idx_of(rows, k) < rows.len(),
        rows[idx_of(rows, k)].order_uid == k,
    decreases rows.len(),
{
    if rows.len() > 0 && rows[0].order_uid != k {
        let i = choose|i: int| 0 <= i < rows.len() && rows[i].order_uid == k;
        assert(rows.drop_first()[i - 1] == rows[i]);
        lemma_idx_of_has(rows.drop_first(), k);
    }
}

/// Under unique keys, the row found at a key's position is the first one.
pub proof fn lemma_idx_of_first(rows: Seq<OrderView>, i: int)
    requires
        unique_uids(rows),
        0 <= i < rows.len(),
    ensures
        idx_of(rows, rows[i].order_uid) == i,
    decreases rows.len(),
{
    if i > 0 {
        assert(rows[0].order_uid != rows[i].order_uid);
        assert(rows.drop_first()[i - 1] == rows[i]);
        lemma_idx_of_first(rows.drop_first(), i - 1);
    }
}

} // verus!
