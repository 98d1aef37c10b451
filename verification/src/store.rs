//! The authoritative store's contract, carried by an in-memory double.
//!
//! The durable backing is a relational table of `(order_uid, data)` rows
//! that lives outside this crate; this double implements the same four
//! operations against the same contract, and is what the verified handlers
//! and the tests run against. Its availability switch stands for the
//! driver-level failures a real backing can show.
use vstd::prelude::*;

use crate::model::{Order, OrderView};
use crate::table::{has_uid, idx_of, OrderTable};

verus! {

/// The ways a store operation fails.
#[derive(Clone, Copy, Debug, PartialEq, Eq, Structural)]
pub enum StoreError {
    /// No row exists for the requested `order_uid`.
    NotFound,
    /// A row with this `order_uid` already exists.
    Conflict,
    /// A stored row cannot be reconstructed into a document.
    CorruptRow,
    /// Driver-level failure: connection, timeout, or the like.
    Failed,
}

/// In-memory double of the authoritative store.
pub struct MemStore {
    pub table: OrderTable,
    pub available: bool,
}

impl MemStore {
    /// The stored rows in store order.
    pub open spec fn rows_view(&self) -> Seq<OrderView> {
        self.table.rows_view()
    }

    /// The stored documents, keyed by `order_uid`.
    pub open spec fn map_view(&self) -> Map<Seq<char>, OrderView> {
        self.table.map_view()
    }

    /// Whether operations reach the store at all.
    pub open spec fn is_available(&self) -> bool {
        self.available
    }

    /// Well-formed: `order_uid` is unique across all stored rows.
    pub open spec fn wf(&self) -> bool {
        self.table.wf()
    }

    /// An empty, reachable store.
    pub fn new() -> (r: Self)
        ensures
            r.wf(),
            r.rows_view() == Seq::<OrderView>::empty(),
            r.is_available(),
    {
        MemStore { table: OrderTable::new(), available: true }
    }

    /// Switches the store's reachability; every operation on an
    /// unreachable store fails without touching the rows.
    pub fn set_available(&mut self, available: bool)
        ensures
            final(self).wf() == old(self).wf(),
            final(self).rows_view() == old(self).rows_view(),
            final(self).is_available() == available,
    {
        self.available = available;
    }

    /// Adds a document under its `order_uid`; fails with `Conflict` when
    /// the key already exists, leaving the rows unchanged.
    pub fn insert(&mut self, o: &Order) -> (r: Result<(), StoreError>)
        requires
            old(self).wf(),
        ensures
            final(self).wf(),
            final(self).is_available() == old(self).is_available(),
            match r {
                Ok(()) => {
                    &&& old(self).is_available()
                    &&& !old(self).map_view().contains_key(o@.order_uid)
                    &&& final(self).rows_view() == old(self).rows_view().push(o@)
                },
                Err(e) => {
                    &&& final(self).rows_view() == old(self).rows_view()
                    &&& (e == StoreError::Failed || e == StoreError::Conflict)
                    &&& (e == StoreError::Failed <==> !old(self).is_available())
                    &&& (e == StoreError::Conflict <==> old(self).is_available()
                        && old(self).map_view().contains_key(o@.order_uid))
                },
            },
    {
        if !self.available {
            return Err(StoreError::Failed);
        }
        if self.table.contains(&o.order_uid) {
            return Err(StoreError::Conflict);
        }
        proof {
            crate::table::lemma_map_of_contains(self.table.rows_view(), o@.order_uid);
        }
        self.table.upsert(o);
        Ok(())
    }

    /// Overwrites the row under this key with the document; fails with
    /// `NotFound` when no row exists, leaving the rows unchanged.
    pub fn replace(&mut self, id: &String, o: &Order) -> (r: Result<(), StoreError>)
        requires
            old(self).wf(),
            o@.order_uid == id@,
        ensures
            final(self).wf(),
            final(self).is_available() == old(self).is_available(),
            match r {
                Ok(()) => {
                    &&& old(self).is_available()
                    &&& old(self).map_view().contains_key(id@)
                    &&& final(self).rows_view() == old(self).rows_view().update(
                        idx_of(old(self).rows_view(), id@),
                        o@,
                    )
                },
                Err(e) => {
                    &&& final(self).rows_view() == old(self).rows_view()
                    &&& (e == StoreError::Failed || e == StoreError::NotFound)
                    &&& (e == StoreError::Failed <==> !old(self).is_available())
                    &&& (e == StoreError::NotFound <==> old(self).is_available()
                        && !old(self).map_view().contains_key(id@))
                },
            },
    {
        if !self.available {
            return Err(StoreError::Failed);
        }
        if !self.table.contains(id) {
            return Err(StoreError::NotFound);
        }
        proof {
            crate::table::lemma_map_of_contains(self.table.rows_view(), id@);
        }
        self.table.upsert(o);
        Ok(())
    }

    /// A copy of the document under this key; `NotFound` when no row
    /// exists.
    pub fn fetch(&self, id: &String) -> (r: Result<Order, StoreError>)
        requires
            self.wf(),
        ensures
            match r {
                Ok(o) => {
                    &&& self.is_available()
                    &&& self.map_view().contains_key(id@)
                    &&& o@ == self.map_view()[id@]
                },
                Err(e) => {
                    &&& (e == StoreError::Failed || e == StoreError::NotFound)
                    &&& (e == StoreError::Failed <==> !self.is_available())
                    &&& (e == StoreError::NotFound <==> self.is_available()
                        && !self.map_view().contains_key(id@))
                },
            },
    {
        if !self.available {
            return Err(StoreError::Failed);
        }
        match self.table.get(id) {
            Some(o) => Ok(o),
            None => Err(StoreError::NotFound),
        }
    }

    /// Copies of all stored documents, in store order.
    pub fn fetch_all(&self) -> (r: Result<Vec<Order>, StoreError>)
        requires
            self.wf(),
        ensures
            match r {
                Ok(v) => self.is_available() && v.deep_view() == self.rows_view(),
                Err(e) => e == StoreError::Failed && !self.is_available(),
            },
    {
        if !self.available {
            return Err(StoreError::Failed);
        }
        Ok(crate::model::clone_orders(&self.table.rows))
    }
}

} // verus!
