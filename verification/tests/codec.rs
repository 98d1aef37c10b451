use orders_core::codec::{decode_order, encode_order};
use orders_core::model::{Delivery, Item, Order, Payment};
use orders_core::validate::{validate_order, FieldPath, ValidationRule};

fn small_order() -> Order {
    Order {
        order_uid: String::from("b563"),
        track_number: String::from("WBILM"),
        entry: String::from("WBIL"),
        delivery: Delivery {
            name: String::from("T"),
            phone: String::from("+9720"),
            zip: String::from("2"),
            city: String::from("K"),
            address: String::from("P 15"),
            region: String::from("Kr"),
            email: String::from("t@x.io"),
        },
        payment: Payment {
            transaction: String::from("b563"),
            request_id: String::from(""),
            currency: String::from("USD"),
            provider: String::from("wbpay"),
            amount: 1817,
            payment_dt: 1637907727,
            bank: String::from("alpha"),
            delivery_cost: 1500,
            goods_total: 317,
            custom_fee: 0,
        },
        items: Vec::new(),
        locale: String::from("en"),
        internal_signature: String::from(""),
        customer_id: String::from("test"),
        delivery_service: String::from("meest"),
        shared_key: String::from("9"),
        sm_id: 99,
        date_created: String::from("2021-11-26T06:22:19Z"),
        oof_shard: String::from("1"),
    }
}

fn sample_item() -> Item {
    Item {
        chrt_id: 9934930,
        track_number: String::from("WBILM"),
        price: 453,
        rid: String::from("ab4219087a764ae0btest"),
        name: String::from("Mascaras"),
        sale: 30,
        size: String::from("0"),
        total_price: 317,
        nm_id: 2389212,
        brand: String::from("Vivienne Sabo"),
        status: 202,
    }
}

#[test]
fn round_trip_without_items() {
    let o = small_order();
    let text = encode_order(&o);
    let back = decode_order(text.as_str()).expect("decode should succeed");
    assert_eq!(back, o);
}

#[test]
fn round_trip_with_items() {
    let mut o = small_order();
    o.items.push(sample_item());
    let mut second = sample_item();
    second.chrt_id = 1;
    second.name = String::from("Brush");
    o.items.push(second);
    let text = encode_order(&o);
    let back = decode_order(text.as_str()).expect("decode should succeed");
    assert_eq!(back, o);
}

#[test]
fn round_trip_with_escaped_characters() {
    let mut o = small_order();
    o.locale = String::from("a\"b\\c");
    o.customer_id = String::from("line\nbreak\ttab");
    o.delivery.address = String::from("\u{1}\u{1f}end");
    let text = encode_order(&o);
    let back = decode_order(text.as_str()).expect("decode should succeed");
    assert_eq!(back, o);
}

#[test]
fn encoding_has_exact_canonical_form() {
    let mut o = small_order();
    o.items.push(sample_item());
    let text = encode_order(&o);
    let mut expected = String::new();
    expected.push_str("{\"order_uid\":\"b563\",\"track_number\":\"WBILM\",\"entry\":\"WBIL\",");
    expected.push_str("\"delivery\":{\"name\":\"T\",\"phone\":\"+9720\",\"zip\":\"2\",\"city\":\"K\",");
    expected.push_str("\"address\":\"P 15\",\"region\":\"Kr\",\"email\":\"t@x.io\"},");
    expected.push_str("\"payment\":{\"transaction\":\"b563\",\"request_id\":\"\",\"currency\":\"USD\",");
    expected.push_str("\"provider\":\"wbpay\",\"amount\":1817,\"payment_dt\":1637907727,\"bank\":\"alpha\",");
    expected.push_str("\"delivery_cost\":1500,\"goods_total\":317,\"custom_fee\":0},");
    expected.push_str("\"items\":[{\"chrt_id\":9934930,\"track_number\":\"WBILM\",\"price\":453,");
    expected.push_str("\"rid\":\"ab4219087a764ae0btest\",\"name\":\"Mascaras\",\"sale\":30,\"size\":\"0\",");
    expected.push_str("\"total_price\":317,\"nm_id\":2389212,\"brand\":\"Vivienne Sabo\",\"status\":202}],");
    expected.push_str("\"locale\":\"en\",\"internal_signature\":\"\",\"customer_id\":\"test\",");
    expected.push_str("\"delivery_service\":\"meest\",\"shared_key\":\"9\",\"sm_id\":99,");
    expected.push_str("\"date_created\":\"2021-11-26T06:22:19Z\",\"oof_shard\":\"1\"}");
    assert_eq!(text, expected);
}

#[test]
fn encoding_is_well_formed_json() {
    let mut o = small_order();
    o.items.push(sample_item());
    o.locale = String::from("a\"b\\c\u{2}");
    let text = encode_order(&o);
    let value: serde_json::Value =
        serde_json::from_str(text.as_str()).expect("encoder output should parse as JSON");
    assert_eq!(value["order_uid"], serde_json::Value::String(String::from("b563")));
    assert_eq!(value["payment"]["amount"], serde_json::Value::from(1817u32));
    assert_eq!(value["locale"], serde_json::Value::String(String::from("a\"b\\c\u{2}")));
    assert_eq!(value["items"][0]["status"], serde_json::Value::from(202u32));
}

#[test]
fn decode_rejects_malformed_text() {
    assert!(decode_order("").is_none());
    assert!(decode_order("{}").is_none());
    assert!(decode_order("not json").is_none());
    let o = small_order();
    let text = encode_order(&o);
    let mut truncated = String::from(text.as_str());
    truncated.pop();
    assert!(decode_order(truncated.as_str()).is_none());
    let mut trailing = String::from(text.as_str());
    trailing.push('x');
    assert!(decode_order(trailing.as_str()).is_none());
}

#[test]
fn validation_uses_real_email_rules() {
    let mut good = small_order();
    good.delivery.email = String::from("weirder-email@here.and.there.com");
    assert!(validate_order(&good).is_ok());
    let mut bad = small_order();
    bad.delivery.email = String::from("something@@somewhere.com");
    let v = validate_order(&bad).expect_err("validation should fail");
    assert_eq!(v.len(), 1);
    assert_eq!(v[0].field, FieldPath::DeliveryEmail);
    assert_eq!(v[0].rule, ValidationRule::InvalidEmail);
}
