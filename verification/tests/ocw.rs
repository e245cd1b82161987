use substrate_kitties::json::{json_field, json_parse, JsonValue};
use substrate_kitties::ocw::{
    offchain_mux, offchain_task, price_usd_bytes, response_body, try_offchain_signed_price,
    OcwError, OcwEvent, OcwModule, OffchainTask, NUM_VEC_LEN,
};
use substrate_kitties::origin::Origin;

#[test]
fn submit_keeps_last_prices() {
    let mut m = OcwModule::new();
    for i in 0..12u8 {
        assert_eq!(
            m.submit_dot_price(Origin::signed(1), vec![i]),
            Ok(OcwEvent::NewPrices(1, vec![i]))
        );
    }
    assert_eq!(m.len(), NUM_VEC_LEN);
    for i in 0..NUM_VEC_LEN {
        assert_eq!(m.price_at(i), Some(vec![i as u8 + 2]));
    }
}

#[test]
fn submit_below_capacity_appends() {
    let mut m = OcwModule::new();
    let _ = m.submit_dot_price(Origin::signed(2), b"1.5".to_vec());
    let _ = m.submit_dot_price(Origin::signed(3), b"1.6".to_vec());
    assert_eq!(m.len(), 2);
    assert_eq!(m.price_at(0), Some(b"1.5".to_vec()));
    assert_eq!(m.price_at(1), Some(b"1.6".to_vec()));
}

#[test]
fn submit_needs_signed_origin() {
    let mut m = OcwModule::new();
    assert_eq!(m.submit_dot_price(Origin::Root, vec![1]), Err(OcwError::BadOrigin));
    assert_eq!(m.len(), 0);
}

#[test]
fn worker_task_by_block() {
    assert_eq!(offchain_mux(0), 0);
    assert_eq!(offchain_mux(7), 3);
    assert_eq!(offchain_mux(u64::MAX), 3);
    assert_eq!(offchain_task(3), Ok(OffchainTask::Signed));
    assert_eq!(offchain_task(11), Ok(OffchainTask::Signed));
    assert_eq!(offchain_task(4), Err(OcwError::UnknownOffchainMux));
    assert_eq!(offchain_task(10), Err(OcwError::UnknownOffchainMux));
}

#[test]
fn http_status_must_be_ok() {
    assert_eq!(response_body(200, vec![1, 2]), Ok(vec![1, 2]));
    assert_eq!(response_body(404, vec![1, 2]), Err(OcwError::HttpFetchingError));
    assert_eq!(response_body(500, vec![]), Err(OcwError::HttpFetchingError));
}

#[test]
fn price_read_from_reply() {
    let body = br#"{"data":{"id":"polkadot","priceUsd":"5.1234"},"timestamp":1}"#.to_vec();
    assert_eq!(try_offchain_signed_price(Ok(body)), Some(Ok(b"5.1234".to_vec())));
}

#[test]
fn price_errors() {
    assert_eq!(
        try_offchain_signed_price(Err(OcwError::HttpFetchingError)),
        Some(Err(OcwError::FetchPriceError))
    );
    assert_eq!(
        try_offchain_signed_price(Ok(vec![0xff, 0xfe])),
        Some(Err(OcwError::FetchInfoError))
    );
    assert_eq!(
        try_offchain_signed_price(Ok(b"not json".to_vec())),
        Some(Err(OcwError::HttpFetchingError))
    );
    assert_eq!(try_offchain_signed_price(Ok(br#"{"data":{}}"#.to_vec())), None);
    assert_eq!(try_offchain_signed_price(Ok(br#"{"data":{"priceUsd":5}}"#.to_vec())), None);
}

#[test]
fn price_is_read_only_from_data_price_usd() {
    assert_eq!(try_offchain_signed_price(Ok(br#"{"data":{"price":"1.0"}}"#.to_vec())), None);
    assert_eq!(try_offchain_signed_price(Ok(br#"{"priceUsd":"1.0"}"#.to_vec())), None);
    assert_eq!(try_offchain_signed_price(Ok(br#"{"data":"1.0"}"#.to_vec())), None);
    assert_eq!(
        try_offchain_signed_price(Ok(br#"{"data":{"price":"1.0","priceUsd":"2.5"}}"#.to_vec())),
        Some(Ok(b"2.5".to_vec()))
    );
}

#[test]
fn json_parse_and_fields() {
    let doc = json_parse(r#"{"a":[1,true,null],"b":{"c":"x"}}"#).unwrap();
    assert_eq!(
        json_field(&doc, "a"),
        Some(&JsonValue::Array(vec![
            JsonValue::Number("1".to_string()),
            JsonValue::Bool(true),
            JsonValue::Null
        ]))
    );
    let b = json_field(&doc, "b").unwrap();
    assert_eq!(json_field(b, "c"), Some(&JsonValue::Str("x".to_string())));
    assert_eq!(json_field(b, "d"), None);
    assert_eq!(json_field(&JsonValue::Null, "a"), None);
    assert!(json_parse("{").is_err());
}

#[test]
fn price_from_parsed_quote() {
    let quote = json_parse(r#"{"data":{"priceUsd":"7.25","symbol":"DOT"}}"#).unwrap();
    assert_eq!(price_usd_bytes(&quote), Some(b"7.25".to_vec()));
    let no_price = json_parse(r#"{"data":{"symbol":"DOT"}}"#).unwrap();
    assert_eq!(price_usd_bytes(&no_price), None);
    let unicode = json_parse(r#"{"data":{"priceUsd":"é"}}"#).unwrap();
    assert_eq!(price_usd_bytes(&unicode), Some(vec![0xc3, 0xa9]));
}
