use deribit_ws::client::{Client, Request};
use deribit_ws::digits::u64_to_dec;
use deribit_ws::json::{decode, Frame};
use deribit_ws::wire::{encode_auth_request, encode_request};

fn json(text: &str) -> serde_json::Value {
    serde_json::from_str(text).unwrap()
}

#[test]
fn u64_to_dec_renders_decimal() {
    assert_eq!(u64_to_dec(0), "0");
    assert_eq!(u64_to_dec(7), "7");
    assert_eq!(u64_to_dec(10), "10");
    assert_eq!(u64_to_dec(1234567890), "1234567890");
    assert_eq!(u64_to_dec(u64::MAX), "18446744073709551615");
}

#[test]
fn encode_request_builds_the_exact_envelope() {
    let req = Request {
        id: 1,
        method: "public/get_index".to_string(),
        params: json("{\"currency\":\"BTC\"}"),
    };
    assert_eq!(
        encode_request(&req),
        "{\"jsonrpc\":\"2.0\",\"id\":1,\"method\":\"public/get_index\",\"params\":{\"currency\":\"BTC\"}}"
    );
}

#[test]
fn encode_request_escapes_the_method_name() {
    let req = Request {
        id: 42,
        method: "odd\"name\\with specials".to_string(),
        params: json("{}"),
    };
    assert_eq!(
        encode_request(&req),
        "{\"jsonrpc\":\"2.0\",\"id\":42,\"method\":\"odd\\\"name\\\\with specials\",\"params\":{}}"
    );
}

#[test]
fn encode_auth_request_builds_the_exact_envelope() {
    let c = Client::new(
        Some("my-id".to_string()),
        Some("my-secret".to_string()),
        Some("wss://example.test".to_string()),
    )
    .unwrap();
    assert_eq!(
        encode_auth_request(&c),
        "{\"jsonrpc\":\"2.0\",\"id\":1,\"method\":\"public/auth\",\"params\":{\"grant_type\":\"client_credentials\",\"client_id\":\"my-id\",\"client_secret\":\"my-secret\"}}"
    );
}

#[test]
fn encoded_params_decode_back_unchanged() {
    let params = json("{\"b\":[1,2,3],\"a\":\"x\",\"c\":null}");
    let req = Request { id: 5, method: "public/test".to_string(), params: params.clone() };
    let envelope = decode(Frame::Text(encode_request(&req))).unwrap();
    assert_eq!(envelope["params"], params);
}

#[test]
fn encoded_request_is_valid_json_with_the_envelope_fields() {
    let req = Request {
        id: 9,
        method: "private/buy".to_string(),
        params: json("{\"instrument_name\":\"BTC-PERPETUAL\",\"amount\":10}"),
    };
    let envelope = json(&encode_request(&req));
    assert_eq!(envelope["jsonrpc"], json("\"2.0\""));
    assert_eq!(envelope["id"], json("9"));
    assert_eq!(envelope["method"], json("\"private/buy\""));
    assert_eq!(envelope["params"], req.params);
}
