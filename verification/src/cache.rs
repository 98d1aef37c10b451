//! The process-local, non-authoritative cache: a mapping from `order_uid`
//! to the order document last seen for it.
use vstd::prelude::*;

use crate::model::{Order, OrderView};
use crate::table::{map_of, OrderTable};

verus! {

/// Inserting a run of documents into a mapping, each under its own
/// `order_uid`, front to back.
pub open spec fn fill(m: Map<Seq<char>, OrderView>, rows: Seq<OrderView>) -> Map<
    Seq<char>,
    OrderView,
>
    decreases rows.len(),
{
    if rows.len() == 0 {
        m
    } else {
        fill(m, rows.drop_last()).insert(rows.last().order_uid, rows.last())
    }
}

/// The cache. It holds copies of documents; the authoritative store owns
/// durability.
pub struct Cache {
    pub table: OrderTable,
}

impl Cache {
    /// The cached documents, keyed by `order_uid`.
    pub open spec fn view(&self) -> Map<Seq<char>, OrderView> {
        self.table.map_view()
    }

    /// Well-formed: one row per key.
    pub open spec fn wf(&self) -> bool {
        self.table.wf()
    }

    /// An empty cache.
    pub fn new() -> (r: Self)
        ensures
            r.wf(),
            r@ == Map::<Seq<char>, OrderView>::empty(),
    {
        Cache { table: OrderTable::new() }
    }

    /// A copy of the cached document under this key, if any.
    pub fn get(&self, id: &String) -> (r: Option<Order>)
        requires
            self.wf(),
        ensures
            match r {
                Some(o) => self@.contains_key(id@) && o@ == self@[id@],
                None => !self@.contains_key(id@),
            },
    {
        self.table.get(id)
    }

    /// Caches the document under its own `order_uid`.
    pub fn put(&mut self, o: &Order)
        requires
            old(self).wf(),
        ensures
            final(self).wf(),
            final(self)@ == old(self)@.insert(o@.order_uid, o@),
    {
        self.table.upsert(o);
    }

    /// Caches every document of the run, each under its own `order_uid`.
    pub fn put_many(&mut self, orders: &Vec<Order>)
        requires
            old(self).wf(),
        ensures
            final(self).wf(),
            final(self)@ == fill(old(self)@, orders.deep_view()),
    {
        let n = orders.len();
        let mut i: usize = 0;
        while i < n
            invariant
                n == orders.len(),
                i <= n,
                self.wf(),
                self@ == fill(old(self)@, orders.deep_view().take(i as int)),
            decreases n - i,
        {
            self.put(&orders[i]);
            proof {
                let rows = orders.deep_view();
                assert(rows.take(i + 1).drop_last() =~= rows.take(i as int));
                assert(rows.take(i + 1).last() == rows[i as int]);
            }
            i = i + 1;
        }
        proof {
            assert(orders.deep_view().take(n as int) =~= orders.deep_view());
        }
    }
}

/// What [`fill`] holds at a key: the last run document carrying the key if
/// there is one, else what the mapping held before.
pub proof fn lemma_fill_at(m: Map<Seq<char>, OrderView>, rows: Seq<OrderView>, k: Seq<char>)
    ensures
        crate::table::has_uid(rows, k) ==> fill(m, rows).contains_key(k),
        !crate::table::has_uid(rows, k) ==> (fill(m, rows).contains_key(k) == m.contains_key(k))
            && (m.contains_key(k) ==> fill(m, rows)[k] == m[k]),
    decreases rows.len(),
{
    if rows.len() > 0 {
        lemma_fill_at(m, rows.drop_last(), k);
        if crate::table::has_uid(rows, k) && rows.last().order_uid != k {
            let i = choose|i: int| 0 <= i < rows.len() && rows[i].order_uid == k;
            assert(rows.drop_last()[i] == rows[i]);
            assert(crate::table::has_uid(rows.drop_last(), k));
        }
        if crate::table::has_uid(rows.drop_last(), k) {
            let i = choose|i: int|
                0 <= i < rows.drop_last().len() && rows.drop_last()[i].order_uid == k;
            assert(rows[i] == rows.drop_last()[i]);
            assert(crate::table::has_uid(rows, k));
        }
    }
}

/// Filling a mapping with exactly the rows of a unique-keyed run yields
/// that run's own mapping at every run key.
pub proof fn lemma_fill_rows(m: Map<Seq<char>, OrderView>, rows: Seq<OrderView>, k: Seq<char>)
    requires
        crate::table::unique_uids(rows),
        crate::table::has_uid(rows, k),
    ensures
        fill(m, rows).contains_key(k),
        fill(m, rows)[k] == map_of(rows)[k],
    decreases rows.len(),
{
    lemma_fill_at(m, rows, k);
    crate::table::lemma_map_of_contains(rows, k);
    if rows.len() > 0 && rows.last().order_uid != k {
        let i = choose|i: int| 0 <= i < rows.len() && rows[i].order_uid == k;
        assert(rows.drop_last()[i] == rows[i]);
        lemma_fill_rows(m, rows.drop_last(), k);
    }
}

} // verus!
