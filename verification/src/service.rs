//! The four request handlers, orchestrating validation, the authoritative
//! store and the cache. Each handler's behaviour is a function of the
//! service state, stated by a `*_spec` transition; the handler's contract
//! says it computes exactly that transition.
use vstd::prelude::*;

use crate::cache::{fill, Cache};
use crate::model::{merge_spec, apply_partial, Order, OrderView, PartialOrder, PartialOrderView};
use crate::store::{MemStore, StoreError};
use crate::table::{has_uid, idx_of, map_of, unique_uids};
use crate::validate::{spec_violations, valid_order, validate_order, Violation};

verus! {

/// What a handler reports to the transport layer when it fails.
#[derive(Debug)]
pub enum ApiError {
    /// The document violates the create rules; carries the violations.
    BadRequest(Vec<Violation>),
    /// No document exists for the requested `order_uid`.
    NotFound,
    /// A document with this `order_uid` already exists.
    Conflict,
    /// The store failed or a row could not be reconstructed.
    Internal,
}

/// Mathematical value of an [`ApiError`].
#[verifier::ext_equal]
pub ghost enum ApiErrorView {
    BadRequest(Seq<Violation>),
    NotFound,
    Conflict,
    Internal,
}

impl View for ApiError {
    type V = ApiErrorView;

    open spec fn view(&self) -> ApiErrorView {
        match self {
            ApiError::BadRequest(v) => ApiErrorView::BadRequest(v@),
            ApiError::NotFound => ApiErrorView::NotFound,
            ApiError::Conflict => ApiErrorView::Conflict,
            ApiError::Internal => ApiErrorView::Internal,
        }
    }
}

impl ApiError {
    /// The HTTP status this error surfaces as.
    pub fn status_code(&self) -> (r: u16)
        ensures
            r == match self@ {
                ApiErrorView::BadRequest(_) => 400u16,
                ApiErrorView::NotFound => 404u16,
                ApiErrorView::Conflict => 409u16,
                ApiErrorView::Internal => 500u16,
            },
    {
        match self {
            ApiError::BadRequest(_) => 400,
            ApiError::NotFound => 404,
            ApiError::Conflict => 409,
            ApiError::Internal => 500,
        }
    }
}

/// Mathematical value of a handler result carrying one document.
pub open spec fn res_view(r: Result<Order, ApiError>) -> Result<OrderView, ApiErrorView> {
    match r {
        Ok(o) => Ok(o@),
        Err(e) => Err(e@),
    }
}

/// Mathematical value of a handler result carrying a run of documents.
pub open spec fn list_res_view(r: Result<Vec<Order>, ApiError>) -> Result<
    Seq<OrderView>,
    ApiErrorView,
> {
    match r {
        Ok(v) => Ok(v.deep_view()),
        Err(e) => Err(e@),
    }
}

/// Mathematical value of the service: the cached mapping, the stored rows
/// in store order, and whether the store is reachable.
#[verifier::ext_equal]
pub ghost struct ServiceView {
    pub cache: Map<Seq<char>, OrderView>,
    pub rows: Seq<OrderView>,
    pub available: bool,
}

/// The consistency discipline: stored keys are unique, and every cached
/// document equals the stored document under the same key.
pub open spec fn wf_view(s: ServiceView) -> bool {
    &&& unique_uids(s.rows)
    &&& forall|k: Seq<char>| #[trigger]
        s.cache.contains_key(k) ==> map_of(s.rows).contains_key(k) && s.cache[k] == map_of(
            s.rows,
        )[k]
}

/// The service state: the cache and the store it is coordinated with.
pub struct Service {
    pub cache: Cache,
    pub store: MemStore,
}

/// What list answers and leaves behind: on a reachable store, all rows in
/// store order, with the cache refilled from every returned row.
pub open spec fn list_spec(s: ServiceView) -> (ServiceView, Result<Seq<OrderView>, ApiErrorView>) {
    if s.available {
        (ServiceView { cache: fill(s.cache, s.rows), ..s }, Ok(s.rows))
    } else {
        (s, Err(ApiErrorView::Internal))
    }
}

/// What read-one answers and leaves behind: a cache hit is returned as is;
/// on a miss the stored document is returned and cached; else not found.
pub open spec fn get_spec(s: ServiceView, id: Seq<char>) -> (
    ServiceView,
    Result<OrderView, ApiErrorView>,
) {
    if s.cache.contains_key(id) {
        (s, Ok(s.cache[id]))
    } else if !s.available {
        (s, Err(ApiErrorView::Internal))
    } else if map_of(s.rows).contains_key(id) {
        (
            ServiceView { cache: s.cache.insert(id, map_of(s.rows)[id]), ..s },
            Ok(map_of(s.rows)[id]),
        )
    } else {
        (s, Err(ApiErrorView::NotFound))
    }
}

/// What create answers and leaves behind: an invalid document is rejected
/// with its violations; an existing key is a conflict; else the document
/// is stored and cached.
pub open spec fn create_spec(s: ServiceView, o: OrderView) -> (
    ServiceView,
    Result<OrderView, ApiErrorView>,
) {
    if !valid_order(o) {
        (s, Err(ApiErrorView::BadRequest(spec_violations(o))))
    } else if !s.available {
        (s, Err(ApiErrorView::Internal))
    } else if map_of(s.rows).contains_key(o.order_uid) {
        (s, Err(ApiErrorView::Conflict))
    } else {
        (
            ServiceView {
                cache: s.cache.insert(o.order_uid, o),
                rows: s.rows.push(o),
                available: s.available,
            },
            Ok(o),
        )
    }
}

/// The replace half of a partial update: the merged document overwrites
/// the stored row and then the cache entry; if the store replace fails,
/// the cache is not modified.
pub open spec fn replace_step(s: ServiceView, id: Seq<char>, merged: OrderView) -> (
    ServiceView,
    Result<OrderView, ApiErrorView>,
) {
    if !s.available {
        (s, Err(ApiErrorView::Internal))
    } else if map_of(s.rows).contains_key(id) {
        (
            ServiceView {
                cache: s.cache.insert(id, merged),
                rows: s.rows.update(idx_of(s.rows, id), merged),
                available: s.available,
            },
            Ok(merged),
        )
    } else {
        (s, Err(ApiErrorView::NotFound))
    }
}

/// What partial update answers and leaves behind: the current document is
/// taken from the cache, or else from the store; the merge of the partial
/// body onto it replaces the stored row and the cache entry.
pub open spec fn update_spec(s: ServiceView, id: Seq<char>, p: PartialOrderView) -> (
    ServiceView,
    Result<OrderView, ApiErrorView>,
) {
    if s.cache.contains_key(id) {
        replace_step(s, id, merge_spec(s.cache[id], p))
    } else if !s.available {
        (s, Err(ApiErrorView::Internal))
    } else if map_of(s.rows).contains_key(id) {
        replace_step(s, id, merge_spec(map_of(s.rows)[id], p))
    } else {
        (s, Err(ApiErrorView::NotFound))
    }
}

impl View for Service {
    type V = ServiceView;

    open spec fn view(&self) -> ServiceView {
        ServiceView {
            cache: self.cache@,
            rows: self.store.rows_view(),
            available: self.store.is_available(),
        }
    }
}

impl Service {
    /// Well-formed: cache and store each keep unique keys, and the cache
    /// agrees with the store.
    pub open spec fn wf(&self) -> bool {
        &&& self.cache.wf()
        &&& self.store.wf()
        &&& wf_view(self@)
    }

    /// A service over an empty cache and an empty, reachable store.
    pub fn new() -> (r: Self)
        ensures
            r.wf(),
            r@.cache == Map::<Seq<char>, OrderView>::empty(),
            r@.rows == Seq::<OrderView>::empty(),
            r@.available,
    {
        Service { cache: Cache::new(), store: MemStore::new() }
    }

    /// Lists every stored document and refills the cache with each.
    pub fn get_orders(&mut self) -> (r: Result<Vec<Order>, ApiError>)
        requires
            old(self).wf(),
        ensures
            final(self).wf(),
            final(self)@ == list_spec(old(self)@).0,
            list_res_view(r) == list_spec(old(self)@).1,
    {
        let rows = match self.store.fetch_all() {
            Ok(rows) => rows,
            Err(_) => {
                return Err(ApiError::Internal);
            },
        };
        self.cache.put_many(&rows);
        proof {
            assert(final(self)@ =~= list_spec(old(self)@).0);
            let s = old(self)@;
            assert forall|k: Seq<char>| #[trigger] fill(s.cache, s.rows).contains_key(k) implies
                map_of(s.rows).contains_key(k) && fill(s.cache, s.rows)[k] == map_of(
                s.rows,
            )[k] by {
                crate::cache::lemma_fill_at(s.cache, s.rows, k);
                crate::table::lemma_map_of_contains(s.rows, k);
                if has_uid(s.rows, k) {
                    crate::cache::lemma_fill_rows(s.cache, s.rows, k);
                }
            }
        }
        Ok(rows)
    }

    /// Returns the document under this key: from the cache on a hit, else
    /// from the store, caching what was read.
    pub fn get_order_by_id(&mut self, id: &String) -> (r: Result<Order, ApiError>)
        requires
            old(self).wf(),
        ensures
            final(self).wf(),
            final(self)@ == get_spec(old(self)@, id@).0,
            res_view(r) == get_spec(old(self)@, id@).1,
    {
        if let Some(o) = self.cache.get(id) {
            return Ok(o);
        }
        match self.store.fetch(id) {
            Ok(o) => {
                proof {
                    crate::table::lemma_map_of_key(old(self)@.rows, id@);
                }
                self.cache.put(&o);
                proof {
                    assert(final(self)@ =~= get_spec(old(self)@, id@).0);
                }
                Ok(o)
            },
            Err(StoreError::NotFound) => Err(ApiError::NotFound),
            Err(_) => Err(ApiError::Internal),
        }
    }

    /// Validates and stores a new document, then caches it; an existing
    /// `order_uid` is a conflict and changes nothing.
    pub fn create_order(&mut self, order: &Order) -> (r: Result<Order, ApiError>)
        requires
            old(self).wf(),
        ensures
            final(self).wf(),
            final(self)@ == create_spec(old(self)@, order@).0,
            res_view(r) == create_spec(old(self)@, order@).1,
    {
        if let Err(v) = validate_order(order) {
            return Err(ApiError::BadRequest(v));
        }
        match self.store.insert(order) {
            Ok(()) => {
                proof {
                    crate::table::lemma_map_of_push(old(self)@.rows, order@);
                }
                self.cache.put(order);
                proof {
                    assert(final(self)@ =~= create_spec(old(self)@, order@).0);
                }
                Ok(order.clone())
            },
            Err(StoreError::Conflict) => Err(ApiError::Conflict),
            Err(_) => Err(ApiError::Internal),
        }
    }

    /// Merges a partial body onto the current document under this key and
    /// replaces the stored row and the cache entry with the result; on any
    /// store failure the cache is left untouched.
    pub fn update_order(&mut self, id: &String, p: &PartialOrder) -> (r: Result<Order, ApiError>)
        requires
            old(self).wf(),
        ensures
            final(self).wf(),
            final(self)@ == update_spec(old(self)@, id@, p@).0,
            res_view(r) == update_spec(old(self)@, id@, p@).1,
    {
        let current = match self.cache.get(id) {
            Some(o) => o,
            None => match self.store.fetch(id) {
                Ok(o) => o,
                Err(StoreError::NotFound) => {
                    return Err(ApiError::NotFound);
                },
                Err(_) => {
                    return Err(ApiError::Internal);
                },
            },
        };
        proof {
            crate::table::lemma_map_of_key(old(self)@.rows, id@);
        }
        let merged = apply_partial(&current, p);
        match self.store.replace(id, &merged) {
            Ok(()) => {
                proof {
                    crate::table::lemma_map_of_contains(old(self)@.rows, id@);
                    crate::table::lemma_idx_of_has(old(self)@.rows, id@);
                    crate::table::lemma_map_of_update(
                        old(self)@.rows,
                        idx_of(old(self)@.rows, id@),
                        merged@,
                    );
                    crate::table::lemma_map_of_index(
                        old(self)@.rows,
                        idx_of(old(self)@.rows, id@),
                    );
                }
                self.cache.put(&merged);
                proof {
                    assert(final(self)@ =~= update_spec(old(self)@, id@, p@).0);
                }
                Ok(merged)
            },
            Err(StoreError::NotFound) => Err(ApiError::NotFound),
            Err(_) => Err(ApiError::Internal),
        }
    }
}

/// After a successful create of a document, reading its `order_uid`
/// returns that document, field for field.
pub proof fn lemma_create_then_get(s: ServiceView, o: OrderView)
    requires
        create_spec(s, o).1 is Ok,
    ensures
        get_spec(create_spec(s, o).0, o.order_uid).1 == Ok::<OrderView, ApiErrorView>(o),
{
}

/// After any successful write, a read of the written key is served by the
/// cache alone: it still returns the written document when the store has
/// become unreachable.
pub proof fn lemma_cached_read_after_create(s: ServiceView, o: OrderView)
    requires
        create_spec(s, o).1 is Ok,
    ensures
        get_spec(
            ServiceView { available: false, ..create_spec(s, o).0 },
            o.order_uid,
        ).1 == Ok::<OrderView, ApiErrorView>(o),
{
}

/// The update half of the same coherence law: after a successful partial
/// update, reading the key returns the merged document without the store.
pub proof fn lemma_cached_read_after_update(s: ServiceView, id: Seq<char>, p: PartialOrderView)
    requires
        update_spec(s, id, p).1 is Ok,
    ensures
        get_spec(ServiceView { available: false, ..update_spec(s, id, p).0 }, id).1 == Ok::<
            OrderView,
            ApiErrorView,
        >(update_spec(s, id, p).1->Ok_0),
{
}

/// Creating a document whose `order_uid` is already stored fails with a
/// conflict and changes nothing: the stored rows, and so the existing
/// document, stay as they were.
pub proof fn lemma_create_conflict(s: ServiceView, o: OrderView)
    requires
        valid_order(o),
        s.available,
        map_of(s.rows).contains_key(o.order_uid),
    ensures
        create_spec(s, o).1 == Err::<OrderView, ApiErrorView>(ApiErrorView::Conflict),
        create_spec(s, o).0 == s,
{
}

/// A successful partial update returns exactly the merge of the partial
/// body onto the previously stored document, and never changes
/// `order_uid`: the result's key is the path's.
pub proof fn lemma_update_is_merge(s: ServiceView, id: Seq<char>, p: PartialOrderView)
    requires
        wf_view(s),
        update_spec(s, id, p).1 is Ok,
    ensures
        map_of(s.rows).contains_key(id),
        update_spec(s, id, p).1->Ok_0 == merge_spec(map_of(s.rows)[id], p),
        (update_spec(s, id, p).1->Ok_0).order_uid == id,
{
    crate::table::lemma_map_of_key(s.rows, id);
}

/// A successful partial update with an empty body returns the stored
/// document unchanged and leaves the stored rows as they were.
pub proof fn lemma_update_empty_is_stable(s: ServiceView, id: Seq<char>, p: PartialOrderView)
    requires
        wf_view(s),
        crate::model::empty_partial(p),
        update_spec(s, id, p).1 is Ok,
    ensures
        update_spec(s, id, p).1->Ok_0 == map_of(s.rows)[id],
        update_spec(s, id, p).0.rows == s.rows,
{
    lemma_update_is_merge(s, id, p);
    crate::model::lemma_merge_empty(map_of(s.rows)[id], p);
    crate::table::lemma_map_of_contains(s.rows, id);
    crate::table::lemma_idx_of_has(s.rows, id);
    crate::table::lemma_map_of_index(s.rows, idx_of(s.rows, id));
    assert(s.rows.update(idx_of(s.rows, id), map_of(s.rows)[id]) =~= s.rows);
}

} // verus!
