//! The document model: an order aggregate with its nested delivery, payment
//! and line-item sub-documents, and the partial document used by updates.
use vstd::prelude::*;

verus! {

/// Delivery sub-document of an order.
#[derive(Debug, PartialEq)]
pub struct Delivery {
    pub name: String,
    pub phone: String,
    pub zip: String,
    pub city: String,
    pub address: String,
    pub region: String,
    pub email: String,
}

/// Mathematical value of a [`Delivery`].
#[verifier::ext_equal]
pub ghost struct DeliveryView {
    pub name: Seq<char>,
    pub phone: Seq<char>,
    pub zip: Seq<char>,
    pub city: Seq<char>,
    pub address: Seq<char>,
    pub region: Seq<char>,
    pub email: Seq<char>,
}

impl View for Delivery {
    type V = DeliveryView;

    open spec fn view(&self) -> DeliveryView {
        DeliveryView {
            name: self.name@,
            phone: self.phone@,
            zip: self.zip@,
            city: self.city@,
            address: self.address@,
            region: self.region@,
            email: self.email@,
        }
    }
}

impl DeepView for Delivery {
    type V = DeliveryView;

    open spec fn deep_view(&self) -> DeliveryView {
        self@
    }
}

impl Clone for Delivery {
    fn clone(&self) -> (r: Self)
        ensures
            r@ == self@,
    {
        Delivery {
            name: self.name.clone(),
            phone: self.phone.clone(),
            zip: self.zip.clone(),
            city: self.city.clone(),
            address: self.address.clone(),
            region: self.region.clone(),
            email: self.email.clone(),
        }
    }
}

/// Payment sub-document of an order.
#[derive(Debug, PartialEq)]
pub struct Payment {
    pub transaction: String,
    pub request_id: String,
    pub currency: String,
    pub provider: String,
    pub amount: u32,
    pub payment_dt: u32,
    pub bank: String,
    pub delivery_cost: u32,
    pub goods_total: u32,
    pub custom_fee: u32,
}

/// Mathematical value of a [`Payment`].
#[verifier::ext_equal]
pub ghost struct PaymentView {
    pub transaction: Seq<char>,
    pub request_id: Seq<char>,
    pub currency: Seq<char>,
    pub provider: Seq<char>,
    pub amount: u32,
    pub payment_dt: u32,
    pub bank: Seq<char>,
    pub delivery_cost: u32,
    pub goods_total: u32,
    pub custom_fee: u32,
}

impl View for Payment {
    type V = PaymentView;

    open spec fn view(&self) -> PaymentView {
        PaymentView {
            transaction: self.transaction@,
            request_id: self.request_id@,
            currency: self.currency@,
            provider: self.provider@,
            amount: self.amount,
            payment_dt: self.payment_dt,
            bank: self.bank@,
            delivery_cost: self.delivery_cost,
            goods_total: self.goods_total,
            custom_fee: self.custom_fee,
        }
    }
}

impl DeepView for Payment {
    type V = PaymentView;

    open spec fn deep_view(&self) -> PaymentView {
        self@
    }
}

impl Clone for Payment {
    fn clone(&self) -> (r: Self)
        ensures
            r@ == self@,
    {
        Payment {
            transaction: self.transaction.clone(),
            request_id: self.request_id.clone(),
            currency: self.currency.clone(),
            provider: self.provider.clone(),
            amount: self.amount,
            payment_dt: self.payment_dt,
            bank: self.bank.clone(),
            delivery_cost: self.delivery_cost,
            goods_total: self.goods_total,
            custom_fee: self.custom_fee,
        }
    }
}

/// One line item of an order.
#[derive(Debug, PartialEq)]
pub struct Item {
    pub chrt_id: u32,
    pub track_number: String,
    pub price: u32,
    pub rid: String,
    pub name: String,
    pub sale: u32,
    pub size: String,
    pub total_price: u32,
    pub nm_id: u32,
    pub brand: String,
    pub status: u32,
}

/// Mathematical value of an [`Item`].
#[verifier::ext_equal]
pub ghost struct ItemView {
    pub chrt_id: u32,
    pub track_number: Seq<char>,
    pub price: u32,
    pub rid: Seq<char>,
    pub name: Seq<char>,
    pub sale: u32,
    pub size: Seq<char>,
    pub total_price: u32,
    pub nm_id: u32,
    pub brand: Seq<char>,
    pub status: u32,
}

impl View for Item {
    type V = ItemView;

    open spec fn view(&self) -> ItemView {
        ItemView {
            chrt_id: self.chrt_id,
            track_number: self.track_number@,
            price: self.price,
            rid: self.rid@,
            name: self.name@,
            sale: self.sale,
            size: self.size@,
            total_price: self.total_price,
            nm_id: self.nm_id,
            brand: self.brand@,
            status: self.status,
        }
    }
}

impl DeepView for Item {
    type V = ItemView;

    open spec fn deep_view(&self) -> ItemView {
        self@
    }
}

impl Clone for Item {
    fn clone(&self) -> (r: Self)
        ensures
            r@ == self@,
    {
        Item {
            chrt_id: self.chrt_id,
            track_number: self.track_number.clone(),
            price: self.price,
            rid: self.rid.clone(),
            name: self.name.clone(),
            sale: self.sale,
            size: self.size.clone(),
            total_price: self.total_price,
            nm_id: self.nm_id,
            brand: self.brand.clone(),
            status: self.status,
        }
    }
}

/// The top-level order document, keyed by `order_uid`.
#[derive(Debug, PartialEq)]
pub struct Order {
    pub order_uid: String,
    pub track_number: String,
    pub entry: String,
    pub delivery: Delivery,
    pub payment: Payment,
    pub items: Vec<Item>,
    pub locale: String,
    pub internal_signature: String,
    pub customer_id: String,
    pub delivery_service: String,
    pub shared_key: String,
    pub sm_id: u32,
    pub date_created: String,
    pub oof_shard: String,
}

/// Mathematical value of an [`Order`].
#[verifier::ext_equal]
pub ghost struct OrderView {
    pub order_uid: Seq<char>,
    pub track_number: Seq<char>,
    pub entry: Seq<char>,
    pub delivery: DeliveryView,
    pub payment: PaymentView,
    pub items: Seq<ItemView>,
    pub locale: Seq<char>,
    pub internal_signature: Seq<char>,
    pub customer_id: Seq<char>,
    pub delivery_service: Seq<char>,
    pub shared_key: Seq<char>,
    pub sm_id: u32,
    pub date_created: Seq<char>,
    pub oof_shard: Seq<char>,
}

impl View for Order {
    type V = OrderView;

    open spec fn view(&self) -> OrderView {
        OrderView {
            order_uid: self.order_uid@,
            track_number: self.track_number@,
            entry: self.entry@,
            delivery: self.delivery@,
            payment: self.payment@,
            items: self.items.deep_view(),
            locale: self.locale@,
            internal_signature: self.internal_signature@,
            customer_id: self.customer_id@,
            delivery_service: self.delivery_service@,
            shared_key: self.shared_key@,
            sm_id: self.sm_id,
            date_created: self.date_created@,
            oof_shard: self.oof_shard@,
        }
    }
}

impl DeepView for Order {
    type V = OrderView;

    open spec fn deep_view(&self) -> OrderView {
        self@
    }
}

/// Copies a vector of items; the copy has the same item values.
pub fn clone_items(items: &Vec<Item>) -> (r: Vec<Item>)
    ensures
        r.deep_view() == items.deep_view(),
{
    let mut out: Vec<Item> = Vec::new();
    let n = items.len();
    let mut i: usize = 0;
    while i < n
        invariant
            n == items.len(),
            i <= n,
            out@.len() == i,
            forall|j: int| 0 <= j < i ==> out.deep_view()[j] == items.deep_view()[j],
        decreases n - i,
    {
        out.push(items[i].clone());
        i = i + 1;
    }
    proof {
        assert(out.deep_view() =~= items.deep_view());
    }
    out
}

/// Copies a vector of orders; the copy has the same document values.
pub fn clone_orders(orders: &Vec<Order>) -> (r: Vec<Order>)
    ensures
        r.deep_view() == orders.deep_view(),
{
    let mut out: Vec<Order> = Vec::new();
    let n = orders.len();
    let mut i: usize = 0;
    while i < n
        invariant
            n == orders.len(),
            i <= n,
            out@.len() == i,
            forall|j: int| 0 <= j < i ==> out.deep_view()[j] == orders.deep_view()[j],
        decreases n - i,
    {
        out.push(orders[i].clone());
        i = i + 1;
    }
    proof {
        assert(out.deep_view() =~= orders.deep_view());
    }
    out
}

impl Clone for Order {
    fn clone(&self) -> (r: Self)
        ensures
            r@ == self@,
    {
        let r = Order {
            order_uid: self.order_uid.clone(),
            track_number: self.track_number.clone(),
            entry: self.entry.clone(),
            delivery: self.delivery.clone(),
            payment: self.payment.clone(),
            items: clone_items(&self.items),
            locale: self.locale.clone(),
            internal_signature: self.internal_signature.clone(),
            customer_id: self.customer_id.clone(),
            delivery_service: self.delivery_service.clone(),
            shared_key: self.shared_key.clone(),
            sm_id: self.sm_id,
            date_created: self.date_created.clone(),
            oof_shard: self.oof_shard.clone(),
        };
        proof {
            assert(r@ =~= self@);
        }
        r
    }
}

/// The request body of a partial update: every top-level field of an order
/// except `order_uid` is present-or-absent.
#[derive(Debug, PartialEq)]
pub struct PartialOrder {
    pub track_number: Option<String>,
    pub entry: Option<String>,
    pub delivery: Option<Delivery>,
    pub payment: Option<Payment>,
    pub items: Option<Vec<Item>>,
    pub locale: Option<String>,
    pub internal_signature: Option<String>,
    pub customer_id: Option<String>,
    pub delivery_service: Option<String>,
    pub shared_key: Option<String>,
    pub sm_id: Option<u32>,
    pub date_created: Option<String>,
    pub oof_shard: Option<String>,
}

/// Mathematical value of a [`PartialOrder`].
#[verifier::ext_equal]
pub ghost struct PartialOrderView {
    pub track_number: Option<Seq<char>>,
    pub entry: Option<Seq<char>>,
    pub delivery: Option<DeliveryView>,
    pub payment: Option<PaymentView>,
    pub items: Option<Seq<ItemView>>,
    pub locale: Option<Seq<char>>,
    pub internal_signature: Option<Seq<char>>,
    pub customer_id: Option<Seq<char>>,
    pub delivery_service: Option<Seq<char>>,
    pub shared_key: Option<Seq<char>>,
    pub sm_id: Option<u32>,
    pub date_created: Option<Seq<char>>,
    pub oof_shard: Option<Seq<char>>,
}

impl View for PartialOrder {
    type V = PartialOrderView;

    open spec fn view(&self) -> PartialOrderView {
        PartialOrderView {
            track_number: self.track_number.deep_view(),
            entry: self.entry.deep_view(),
            delivery: self.delivery.deep_view(),
            payment: self.payment.deep_view(),
            items: self.items.deep_view(),
            locale: self.locale.deep_view(),
            internal_signature: self.internal_signature.deep_view(),
            customer_id: self.customer_id.deep_view(),
            delivery_service: self.delivery_service.deep_view(),
            shared_key: self.shared_key.deep_view(),
            sm_id: if self.sm_id is Some {
                Some(self.sm_id->0)
            } else {
                None
            },
            date_created: self.date_created.deep_view(),
            oof_shard: self.oof_shard.deep_view(),
        }
    }
}

/// A partial document with every field absent.
pub open spec fn empty_partial(p: PartialOrderView) -> bool {
    &&& p.track_number is None
    &&& p.entry is None
    &&& p.delivery is None
    &&& p.payment is None
    &&& p.items is None
    &&& p.locale is None
    &&& p.internal_signature is None
    &&& p.customer_id is None
    &&& p.delivery_service is None
    &&& p.shared_key is None
    &&& p.sm_id is None
    &&& p.date_created is None
    &&& p.oof_shard is None
}

/// The merge of a partial document onto a current order: each present field
/// overwrites the whole corresponding field, each absent field leaves it
/// unchanged, and `order_uid` is always taken from the current order.
pub open spec fn merge_spec(o: OrderView, p: PartialOrderView) -> OrderView {
    OrderView {
        order_uid: o.order_uid,
        track_number: if p.track_number is Some {
            p.track_number->0
        } else {
            o.track_number
        },
        entry: if p.entry is Some {
            p.entry->0
        } else {
            o.entry
        },
        delivery: if p.delivery is Some {
            p.delivery->0
        } else {
            o.delivery
        },
        payment: if p.payment is Some {
            p.payment->0
        } else {
            o.payment
        },
        items: if p.items is Some {
            p.items->0
        } else {
            o.items
        },
        locale: if p.locale is Some {
            p.locale->0
        } else {
            o.locale
        },
        internal_signature: if p.internal_signature is Some {
            p.internal_signature->0
        } else {
            o.internal_signature
        },
        customer_id: if p.customer_id is Some {
            p.customer_id->0
        } else {
            o.customer_id
        },
        delivery_service: if p.delivery_service is Some {
            p.delivery_service->0
        } else {
            o.delivery_service
        },
        shared_key: if p.shared_key is Some {
            p.shared_key->0
        } else {
            o.shared_key
        },
        sm_id: if p.sm_id is Some {
            p.sm_id->0
        } else {
            o.sm_id
        },
        date_created: if p.date_created is Some {
            p.date_created->0
        } else {
            o.date_created
        },
        oof_shard: if p.oof_shard is Some {
            p.oof_shard->0
        } else {
            o.oof_shard
        },
    }
}

/// Overlays a partial document onto a current order, field by field.
pub fn apply_partial(order: &Order, p: &PartialOrder) -> (r: Order)
    ensures
        r@ == merge_spec(order@, p@),
{
    let mut r = order.clone();
    if let Some(track_number) = &p.track_number {
        r.track_number = track_number.clone();
    }
    if let Some(entry) = &p.entry {
        r.entry = entry.clone();
    }
    if let Some(delivery) = &p.delivery {
        r.delivery = delivery.clone();
    }
    if let Some(payment) = &p.payment {
        r.payment = payment.clone();
    }
    if let Some(items) = &p.items {
        r.items = clone_items(items);
    }
    if let Some(locale) = &p.locale {
        r.locale = locale.clone();
    }
    if let Some(internal_signature) = &p.internal_signature {
        r.internal_signature = internal_signature.clone();
    }
    if let Some(customer_id) = &p.customer_id {
        r.customer_id = customer_id.clone();
    }
    if let Some(delivery_service) = &p.delivery_service {
        r.delivery_service = delivery_service.clone();
    }
    if let Some(shared_key) = &p.shared_key {
        r.shared_key = shared_key.clone();
    }
    if let Some(sm_id) = &p.sm_id {
        r.sm_id = *sm_id;
    }
    if let Some(date_created) = &p.date_created {
        r.date_created = date_created.clone();
    }
    if let Some(oof_shard) = &p.oof_shard {
        r.oof_shard = oof_shard.clone();
    }
    proof {
        assert(r@ =~= merge_spec(order@, p@));
    }
    r
}

/// Every field present in the partial document ends up in the merge, every
/// absent field keeps the current order's value, stated field by field.
pub proof fn lemma_merge_fields(o: OrderView, p: PartialOrderView)
    ensures
        merge_spec(o, p).track_number == if p.track_number is Some {
            p.track_number->0
        } else {
            o.track_number
        },
        merge_spec(o, p).entry == if p.entry is Some {
            p.entry->0
        } else {
            o.entry
        },
        merge_spec(o, p).delivery == if p.delivery is Some {
            p.delivery->0
        } else {
            o.delivery
        },
        merge_spec(o, p).payment == if p.payment is Some {
            p.payment->0
        } else {
            o.payment
        },
        merge_spec(o, p).items == if p.items is Some {
            p.items->0
        } else {
            o.items
        },
        merge_spec(o, p).locale == if p.locale is Some {
            p.locale->0
        } else {
            o.locale
        },
        merge_spec(o, p).internal_signature == if p.internal_signature is Some {
            p.internal_signature->0
        } else {
            o.internal_signature
        },
        merge_spec(o, p).customer_id == if p.customer_id is Some {
            p.customer_id->0
        } else {
            o.customer_id
        },
        merge_spec(o, p).delivery_service == if p.delivery_service is Some {
            p.delivery_service->0
        } else {
            o.delivery_service
        },
        merge_spec(o, p).shared_key == if p.shared_key is Some {
            p.shared_key->0
        } else {
            o.shared_key
        },
        merge_spec(o, p).sm_id == if p.sm_id is Some {
            p.sm_id->0
        } else {
            o.sm_id
        },
        merge_spec(o, p).date_created == if p.date_created is Some {
            p.date_created->0
        } else {
            o.date_created
        },
        merge_spec(o, p).oof_shard == if p.oof_shard is Some {
            p.oof_shard->0
        } else {
            o.oof_shard
        },
{
}

/// A merge never changes `order_uid`: it is taken from the current order.
pub proof fn lemma_merge_keeps_uid(o: OrderView, p: PartialOrderView)
    ensures
        merge_spec(o, p).order_uid == o.order_uid,
{
}

/// Merging an empty partial document is the identity on orders.
pub proof fn lemma_merge_empty(o: OrderView, p: PartialOrderView)
    requires
        empty_partial(p),
    ensures
        merge_spec(o, p) == o,
{
    assert(merge_spec(o, p) =~= o);
}

} // verus!
