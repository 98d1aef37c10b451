use orders_core::model::{Delivery, Item, Order, PartialOrder, Payment};
use orders_core::service::{ApiError, Service};

fn sample_order() -> Order {
    Order {
        order_uid: String::from("b563"),
        track_number: String::from("WBILM"),
        entry: String::from("WBIL"),
        delivery: Delivery {
            name: String::from("T"),
            phone: String::from("+9720"),
            zip: String::from("2"),
            city: String::from("K"),
            address: String::from("P 15"),
            region: String::from("Kr"),
            email: String::from("t@x.io"),
        },
        payment: Payment {
            transaction: String::from("b563"),
            request_id: String::from(""),
            currency: String::from("USD"),
            provider: String::from("wbpay"),
            amount: 1817,
            payment_dt: 1637907727,
            bank: String::from("alpha"),
            delivery_cost: 1500,
            goods_total: 317,
            custom_fee: 0,
        },
        items: Vec::new(),
        locale: String::from("en"),
        internal_signature: String::from(""),
        customer_id: String::from("test"),
        delivery_service: String::from("meest"),
        shared_key: String::from("9"),
        sm_id: 99,
        date_created: String::from("2021-11-26T06:22:19Z"),
        oof_shard: String::from("1"),
    }
}

fn empty_partial() -> PartialOrder {
    PartialOrder {
        track_number: None,
        entry: None,
        delivery: None,
        payment: None,
        items: None,
        locale: None,
        internal_signature: None,
        customer_id: None,
        delivery_service: None,
        shared_key: None,
        sm_id: None,
        date_created: None,
        oof_shard: None,
    }
}

#[test]
fn create_then_get_returns_same_document() {
    let mut svc = Service::new();
    let created = svc.create_order(&sample_order()).expect("create should succeed");
    assert_eq!(created, sample_order());
    let got = svc.get_order_by_id(&String::from("b563")).expect("get should succeed");
    assert_eq!(got, sample_order());
}

#[test]
fn create_rejects_invalid_email() {
    let mut svc = Service::new();
    let mut o = sample_order();
    o.delivery.email = String::from("not-an-email");
    let err = svc.create_order(&o).expect_err("create should fail");
    match &err {
        ApiError::BadRequest(v) => assert_eq!(v.len(), 1),
        other => panic!("expected BadRequest, got {:?}", other),
    }
    assert_eq!(err.status_code(), 400);
    let miss = svc.get_order_by_id(&String::from("b563"));
    assert!(matches!(miss, Err(ApiError::NotFound)));
}

#[test]
fn create_rejects_empty_uid_and_name() {
    let mut svc = Service::new();
    let mut o = sample_order();
    o.order_uid = String::from("");
    o.delivery.name = String::from("");
    let err = svc.create_order(&o).expect_err("create should fail");
    match err {
        ApiError::BadRequest(v) => assert_eq!(v.len(), 2),
        other => panic!("expected BadRequest, got {:?}", other),
    }
}

#[test]
fn duplicate_create_conflicts_and_keeps_document() {
    let mut svc = Service::new();
    svc.create_order(&sample_order()).expect("first create should succeed");
    let mut changed = sample_order();
    changed.locale = String::from("ru");
    let err = svc.create_order(&changed).expect_err("second create should fail");
    assert!(matches!(err, ApiError::Conflict));
    assert_eq!(err.status_code(), 409);
    let got = svc.get_order_by_id(&String::from("b563")).expect("get should succeed");
    assert_eq!(got, sample_order());
}

#[test]
fn partial_update_overlays_present_fields() {
    let mut svc = Service::new();
    svc.create_order(&sample_order()).expect("create should succeed");
    let mut p = empty_partial();
    p.locale = Some(String::from("ru"));
    p.delivery_service = Some(String::from("dhl"));
    let updated = svc.update_order(&String::from("b563"), &p).expect("update should succeed");
    assert_eq!(updated.locale, "ru");
    assert_eq!(updated.delivery_service, "dhl");
    assert_eq!(updated.order_uid, "b563");
    let mut expected = sample_order();
    expected.locale = String::from("ru");
    expected.delivery_service = String::from("dhl");
    assert_eq!(updated, expected);
}

#[test]
fn partial_update_replaces_whole_nested_document() {
    let mut svc = Service::new();
    svc.create_order(&sample_order()).expect("create should succeed");
    let new_payment = Payment {
        transaction: String::from("b563"),
        request_id: String::from("r"),
        currency: String::from("EUR"),
        provider: String::from("x"),
        amount: 1,
        payment_dt: 1,
        bank: String::from("b"),
        delivery_cost: 0,
        goods_total: 1,
        custom_fee: 0,
    };
    let mut p = empty_partial();
    p.payment = Some(new_payment);
    let updated = svc.update_order(&String::from("b563"), &p).expect("update should succeed");
    assert_eq!(updated.payment.currency, "EUR");
    assert_eq!(updated.payment.request_id, "r");
    assert_eq!(updated.delivery, sample_order().delivery);
    assert_eq!(updated.items, sample_order().items);
}

#[test]
fn partial_update_on_missing_id_is_not_found() {
    let mut svc = Service::new();
    let mut p = empty_partial();
    p.locale = Some(String::from("ru"));
    let err = svc.update_order(&String::from("unknown"), &p).expect_err("update should fail");
    assert!(matches!(err, ApiError::NotFound));
    assert_eq!(err.status_code(), 404);
}

#[test]
fn empty_partial_update_returns_unchanged_document() {
    let mut svc = Service::new();
    svc.create_order(&sample_order()).expect("create should succeed");
    let updated = svc.update_order(&String::from("b563"), &empty_partial()).expect(
        "update should succeed",
    );
    assert_eq!(updated, sample_order());
}

#[test]
fn cache_serves_reads_after_create_without_store() {
    let mut svc = Service::new();
    svc.create_order(&sample_order()).expect("create should succeed");
    svc.store.set_available(false);
    let got = svc.get_order_by_id(&String::from("b563")).expect("cache should serve the read");
    assert_eq!(got, sample_order());
}

#[test]
fn cache_serves_reads_after_update_without_store() {
    let mut svc = Service::new();
    svc.create_order(&sample_order()).expect("create should succeed");
    let mut p = empty_partial();
    p.locale = Some(String::from("ru"));
    let updated = svc.update_order(&String::from("b563"), &p).expect("update should succeed");
    svc.store.set_available(false);
    let got = svc.get_order_by_id(&String::from("b563")).expect("cache should serve the read");
    assert_eq!(got, updated);
}

#[test]
fn list_returns_all_and_fills_cache() {
    let mut svc = Service::new();
    svc.create_order(&sample_order()).expect("create should succeed");
    let mut second = sample_order();
    second.order_uid = String::from("c001");
    svc.create_order(&second).expect("create should succeed");
    let all = svc.get_orders().expect("list should succeed");
    assert_eq!(all.len(), 2);
    svc.store.set_available(false);
    let got = svc.get_order_by_id(&String::from("c001")).expect("cache should serve the read");
    assert_eq!(got, second);
}

#[test]
fn unavailable_store_is_internal_error_and_cache_untouched() {
    let mut svc = Service::new();
    svc.create_order(&sample_order()).expect("create should succeed");
    svc.store.set_available(false);
    let mut fresh = sample_order();
    fresh.order_uid = String::from("d001");
    let err = svc.create_order(&fresh).expect_err("create should fail");
    assert!(matches!(err, ApiError::Internal));
    assert_eq!(err.status_code(), 500);
    let err = svc.get_order_by_id(&String::from("d001")).expect_err("get should fail");
    assert!(matches!(err, ApiError::Internal));
    let err = svc.get_orders().expect_err("list should fail");
    assert!(matches!(err, ApiError::Internal));
    let mut p = empty_partial();
    p.locale = Some(String::from("ru"));
    let err = svc.update_order(&String::from("b563"), &p).expect_err("update should fail");
    assert!(matches!(err, ApiError::Internal));
    svc.store.set_available(true);
    let got = svc.get_order_by_id(&String::from("b563")).expect("get should succeed");
    assert_eq!(got, sample_order());
}
