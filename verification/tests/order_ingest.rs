use order_ingest::cache::Cache;
use order_ingest::http::{render_order, submit_response};
use order_ingest::model::{Delivery, Item, Order, Payment, DecodeError, StoreError};
use order_ingest::record_de::decode_order;
use order_ingest::record_ser::serialize_order;
use order_ingest::rfc3339::rfc3339_ok;
use order_ingest::store::{insert_sql, order_row, schema_sql};

fn sample_order() -> Order {
    Order {
        order_uid: "b563feb7b2b84b6test".to_string(),
        track_number: "WBILMTESTTRACK".to_string(),
        entry: "WBIL".to_string(),
        delivery: Delivery {
            name: "Test Testov".to_string(),
            phone: "+9720000000".to_string(),
            zip: "2639809".to_string(),
            city: "Kiryat Mozkin".to_string(),
            address: "Ploshad Mira 15".to_string(),
            region: "Kraiot".to_string(),
            email: "test@gmail.com".to_string(),
        },
        payment: Payment {
            transaction: "b563feb7b2b84b6test".to_string(),
            request_id: "".to_string(),
            currency: "USD".to_string(),
            provider: "wbpay".to_string(),
            amount: 1817,
            payment_dt: 1637907727,
            bank: "alpha".to_string(),
            delivery_cost: 1500,
            goods_total: 317,
            custom_fee: 0,
        },
        items: vec![Item {
            chrt_id: 9934930,
            track_number: "WBILMTESTTRACK".to_string(),
            price: 453,
            rid: "ab4219087a764ae0btest".to_string(),
            name: "Mascaras".to_string(),
            sale: 30,
            size: "0".to_string(),
            total_price: 317,
            nm_id: 2389212,
            brand: "Vivienne Sabo".to_string(),
            status: 202,
        }],
        locale: "en".to_string(),
        internal_signature: "".to_string(),
        customer_id: "test".to_string(),
        delivery_service: "meest".to_string(),
        shardkey: "9".to_string(),
        sm_id: 99,
        date_created: "2021-11-26T06:22:19Z".to_string(),
        oof_shard: "1".to_string(),
    }
}

#[test]
fn round_trip_sample() {
    let o = sample_order();
    let s = serialize_order(&o);
    let back = decode_order(&s).expect("well-formed order must decode");
    assert_eq!(back, o);
}

#[test]
fn round_trip_empty_items() {
    let mut o = sample_order();
    o.items = vec![];
    let s = serialize_order(&o);
    assert_eq!(decode_order(&s).unwrap(), o);
}

#[test]
fn round_trip_many_items() {
    let mut o = sample_order();
    let mut second = o.items[0].clone();
    second.chrt_id = 1;
    second.name = "Second".to_string();
    o.items.push(second.clone());
    let mut third = second.clone();
    third.chrt_id = u64::MAX;
    o.items.push(third);
    let s = serialize_order(&o);
    assert_eq!(decode_order(&s).unwrap(), o);
}

#[test]
fn round_trip_escapes() {
    let mut o = sample_order();
    o.order_uid = "quote\" backslash\\ slash/ tab\t newline\n bell\u{7} esc\u{1b}".to_string();
    o.delivery.name = "naïve – 日本語 😀".to_string();
    o.entry = "\u{0}\u{1}\u{1f}".to_string();
    let s = serialize_order(&o);
    assert_eq!(decode_order(&s).unwrap(), o);
}

#[test]
fn serialized_text_is_json_for_serde() {
    let o = sample_order();
    let s = serialize_order(&o);
    let v: serde_json::Value = serde_json::from_str(&s).expect("serializer must emit JSON");
    assert_eq!(v["order_uid"], "b563feb7b2b84b6test");
    assert_eq!(v["payment"]["amount"], 1817);
    assert_eq!(v["items"][0]["price"], 453);
    assert_eq!(v["date_created"], "2021-11-26T06:22:19Z");
}

#[test]
fn serialized_escapes_are_json_for_serde() {
    let mut o = sample_order();
    o.order_uid = "q\" b\\ t\t n\n z\u{0} é".to_string();
    let s = serialize_order(&o);
    let v: serde_json::Value = serde_json::from_str(&s).unwrap();
    assert_eq!(v["order_uid"], "q\" b\\ t\t n\n z\u{0} é");
}

#[test]
fn decode_handwritten_payload() {
    let o = sample_order();
    let payload = serialize_order(&o);
    // The exact canonical text, written out, must match the serializer.
    assert!(payload.starts_with("{\"order_uid\":\"b563feb7b2b84b6test\",\"track_number\":\"WBILMTESTTRACK\",\"entry\":\"WBIL\",\"delivery\":{\"name\":\"Test Testov\","));
    assert!(payload.contains("\"sm_id\":99,\"date_created\":\"2021-11-26T06:22:19Z\",\"oof_shard\":\"1\"}"));
    assert_eq!(decode_order(&payload).unwrap(), o);
}

#[test]
fn timestamp_rejected_distinctly() {
    let mut o = sample_order();
    o.date_created = "yesterday".to_string();
    let s = serialize_order(&o);
    assert_eq!(decode_order(&s), Err(DecodeError::InvalidTimestamp));
}

#[test]
fn timestamp_rejection_not_masked_by_valid_rest() {
    let o = sample_order();
    let s = serialize_order(&o).replace("2021-11-26T06:22:19Z", "2021-13-26T06:22:19Z");
    assert_eq!(decode_order(&s), Err(DecodeError::InvalidTimestamp));
}

#[test]
fn malformed_payloads_rejected() {
    assert_eq!(decode_order(""), Err(DecodeError::Malformed));
    assert_eq!(decode_order("{}"), Err(DecodeError::Malformed));
    assert_eq!(decode_order("not json at all"), Err(DecodeError::Malformed));
    let o = sample_order();
    let s = serialize_order(&o);
    // Truncation loses the trailing fields.
    assert_eq!(decode_order(&s[..s.len() - 2]), Err(DecodeError::Malformed));
    // Trailing content after the record.
    let mut t = s.clone();
    t.push_str(" ");
    assert_eq!(decode_order(&t), Err(DecodeError::Malformed));
    // A string where a number belongs.
    let u = s.replace("\"sm_id\":99", "\"sm_id\":\"99\"");
    assert_eq!(decode_order(&u), Err(DecodeError::Malformed));
}

#[test]
fn number_bounds_checked() {
    let o = sample_order();
    let s = serialize_order(&o);
    // A 32-bit field cannot hold a larger value.
    let big = s.replace("\"amount\":1817", "\"amount\":4294967296");
    assert_eq!(decode_order(&big), Err(DecodeError::Malformed));
    // The largest 64-bit value round-trips.
    let max = s.replace(
        "\"payment_dt\":1637907727",
        "\"payment_dt\":18446744073709551615",
    );
    let back = decode_order(&max).unwrap();
    assert_eq!(back.payment.payment_dt, u64::MAX);
    // One past it does not.
    let over = s.replace(
        "\"payment_dt\":1637907727",
        "\"payment_dt\":18446744073709551616",
    );
    assert_eq!(decode_order(&over), Err(DecodeError::Malformed));
    // Leading zeros are not a number.
    let zeros = s.replace("\"sm_id\":99", "\"sm_id\":099");
    assert_eq!(decode_order(&zeros), Err(DecodeError::Malformed));
}

#[test]
fn no_cross_field_validation() {
    let mut o = sample_order();
    // Items total 453, payment says 1; still accepted.
    o.items[0].total_price = 453;
    o.payment.goods_total = 1;
    let s = serialize_order(&o);
    assert_eq!(decode_order(&s).unwrap(), o);
}

#[test]
fn rfc3339_accepts_valid_forms() {
    assert!(rfc3339_ok("2021-11-26T06:22:19Z"));
    assert!(rfc3339_ok("2021-11-26t06:22:19z"));
    assert!(rfc3339_ok("2021-11-26T06:22:19+05:30"));
    assert!(rfc3339_ok("2021-11-26T06:22:19-08:00"));
    assert!(rfc3339_ok("2021-11-26T06:22:19.123456Z"));
    assert!(rfc3339_ok("2020-02-29T23:59:59Z"));
    assert!(rfc3339_ok("0000-01-01T00:00:00Z"));
}

#[test]
fn rfc3339_rejects_invalid_forms() {
    assert!(!rfc3339_ok(""));
    assert!(!rfc3339_ok("2021-11-26"));
    assert!(!rfc3339_ok("2021-11-26 06:22:19Z"));
    assert!(!rfc3339_ok("2021-13-26T06:22:19Z"));
    assert!(!rfc3339_ok("2021-11-31T06:22:19Z"));
    assert!(!rfc3339_ok("2021-02-29T06:22:19Z"));
    assert!(!rfc3339_ok("1900-02-29T06:22:19Z"));
    assert!(!rfc3339_ok("2021-11-26T24:00:00Z"));
    assert!(!rfc3339_ok("2021-11-26T06:60:19Z"));
    assert!(!rfc3339_ok("2021-11-26T06:22:19"));
    assert!(!rfc3339_ok("2021-11-26T06:22:19+24:00"));
    assert!(!rfc3339_ok("2021-11-26T06:22:19.Z"));
    assert!(!rfc3339_ok("2021-11-26T06:22:19x"));
}

#[test]
fn rfc3339_agrees_with_time_crate() {
    let cases = [
        "2021-11-26T06:22:19Z",
        "2021-11-26T06:22:19+05:30",
        "2021-11-26T06:22:19.5Z",
        "2020-02-29T00:00:00Z",
        "2021-02-29T00:00:00Z",
        "2021-13-01T00:00:00Z",
        "2021-11-31T00:00:00Z",
        "2021-11-26T24:00:00Z",
        "not a date",
    ];
    for s in cases {
        let theirs = time::OffsetDateTime::parse(
            s,
            &time::format_description::well_known::Rfc3339,
        )
        .is_ok();
        assert_eq!(rfc3339_ok(s), theirs, "disagreement on {s}");
    }
}

#[test]
fn cache_reflects_last_write() {
    let mut c = Cache::new();
    let a = sample_order();
    let mut b = sample_order();
    b.order_uid = "second".to_string();
    c.set(a);
    c.set(b.clone());
    assert_eq!(c.get(), &Some(b));
}

#[test]
fn cache_empty_default() {
    let c = Cache::new();
    assert_eq!(c.get(), &None);
    assert_eq!(render_order(c.get()), "<p>No order received yet.</p>");
}

#[test]
fn render_shows_order_verbatim() {
    let o = sample_order();
    let mut c = Cache::new();
    c.set(o.clone());
    let body = render_order(c.get());
    assert!(body.starts_with("<pre>"));
    assert!(body.ends_with("</pre>"));
    assert!(body.contains("b563feb7b2b84b6test"));
    assert!(body.contains("\"date_created\":\"2021-11-26T06:22:19Z\""));
    assert_eq!(body, format!("<pre>{}</pre>", serialize_order(&o)));
}

#[test]
fn concurrent_sets_leave_one_whole_order() {
    let rt = tokio::runtime::Builder::new_multi_thread()
        .worker_threads(4)
        .build()
        .unwrap();
    let cache = std::sync::Arc::new(tokio::sync::Mutex::new(Cache::new()));
    let mut handles = Vec::new();
    for k in 0..16u32 {
        let shared = cache.clone();
        handles.push(rt.spawn(async move {
            let mut o = sample_order();
            o.sm_id = k;
            o.order_uid = format!("uid-{k}");
            let mut guard = shared.lock().await;
            guard.set(o);
        }));
    }
    for h in handles {
        rt.block_on(h).unwrap();
    }
    let guard = rt.block_on(cache.lock());
    let held = guard.get().clone().expect("sixteen sets leave an order");
    assert_eq!(held.order_uid, format!("uid-{}", held.sm_id));
    let mut expected = sample_order();
    expected.sm_id = held.sm_id;
    expected.order_uid = held.order_uid.clone();
    assert_eq!(held, expected);
}

#[test]
fn schema_statement_fixed_and_conditional() {
    let first = schema_sql();
    let second = schema_sql();
    assert_eq!(first, second);
    assert!(first.starts_with("CREATE TABLE IF NOT EXISTS orders"));
}

#[test]
fn insert_statement_exact() {
    assert_eq!(
        insert_sql(),
        "INSERT INTO orders (order_uid, track_number, entry, delivery, payment, items, locale, internal_signature, customer_id, delivery_service, shardkey, sm_id, date_created, oof_shard) VALUES ($1, $2, $3, $4, $5, $6, $7, $8, $9, $10, $11, $12, $13, $14)"
    );
}

#[test]
fn order_row_carries_fields_and_blobs() {
    let o = sample_order();
    let row = order_row(&o);
    assert_eq!(row.order_uid, o.order_uid);
    assert_eq!(row.sm_id, 99);
    assert_eq!(row.date_created, "2021-11-26T06:22:19Z");
    assert_eq!(row.oof_shard, "1");
    let d: serde_json::Value = serde_json::from_str(&row.delivery).unwrap();
    assert_eq!(d["name"], "Test Testov");
    let p: serde_json::Value = serde_json::from_str(&row.payment).unwrap();
    assert_eq!(p["goods_total"], 317);
    let its: serde_json::Value = serde_json::from_str(&row.items).unwrap();
    assert_eq!(its[0]["chrt_id"], 9934930);
    assert_eq!(its.as_array().unwrap().len(), 1);
}

#[test]
fn submit_response_texts() {
    assert_eq!(submit_response(&Ok(())), "Order received");
    let failed: Result<(), StoreError> = Err(StoreError {
        detail: "connection refused".to_string(),
    });
    assert_eq!(submit_response(&failed), "Failed to save order");
}

#[test]
fn ingest_scenario() {
    // A submission arrives, decodes, is rowed for the store and cached;
    // the read endpoint then shows the same order's fields.
    let payload = serialize_order(&sample_order());
    let order = decode_order(&payload).unwrap();
    let row = order_row(&order);
    assert_eq!(row.order_uid, "b563feb7b2b84b6test");
    let mut cache = Cache::new();
    cache.set(order);
    assert_eq!(submit_response(&Ok(())), "Order received");
    let page = render_order(cache.get());
    assert!(page.contains("b563feb7b2b84b6test"));
    assert!(page.contains("\"items\":[{\"chrt_id\":9934930,"));
}
