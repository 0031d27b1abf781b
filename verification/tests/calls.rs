use deribit_ws::client::{Client, Request};
use deribit_ws::errors::ClientError;
use deribit_ws::events::RecvOutcome;
use deribit_ws::json::Frame;
use deribit_ws::private_call::AuthStep;
use deribit_ws::subscribe::SubStep;
use deribit_ws::wire::encode_request;

fn json(text: &str) -> serde_json::Value {
    serde_json::from_str(text).unwrap()
}

fn client() -> Client {
    Client::new(
        Some("my-id".to_string()),
        Some("my-secret".to_string()),
        Some("wss://example.test".to_string()),
    )
    .unwrap()
}

fn index_request() -> Request {
    Request {
        id: 1,
        method: "public/get_index".to_string(),
        params: json("{\"currency\":\"BTC\"}"),
    }
}

#[test]
fn public_call_sends_the_request_frame_first() {
    let req = index_request();
    let expected = encode_request(&req);
    let (_call, frame) = client().public_api(&req);
    assert_eq!(frame, expected);
}

#[test]
fn public_call_returns_the_server_reply_unchanged() {
    let reply = "{\"jsonrpc\":\"2.0\",\"id\":1,\"result\":{\"index_price\":30000.5}}";
    let (call, _frame) = client().public_api(&index_request());
    let (_done, res) = call.on_reply(RecvOutcome::Frame(Frame::Text(reply.to_string())));
    assert_eq!(res.unwrap(), json(reply));
}

#[test]
fn public_call_fails_with_empty_response_when_the_stream_closes() {
    let (call, _frame) = client().public_api(&index_request());
    let (_done, res) = call.on_reply(RecvOutcome::Closed);
    assert!(matches!(res, Err(ClientError::EmptyResponseError)));
}

#[test]
fn public_call_reports_a_transport_failure() {
    let (call, _frame) = client().public_api(&index_request());
    let (_done, res) = call.on_reply(RecvOutcome::Failed("connection reset".to_string()));
    match res {
        Err(ClientError::ConnectionError { detail }) => assert_eq!(detail, "connection reset"),
        _ => panic!("expected ConnectionError"),
    }
}

#[test]
fn public_call_rejects_a_malformed_reply() {
    let (call, _frame) = client().public_api(&index_request());
    let (_done, res) = call.on_reply(RecvOutcome::Frame(Frame::Text("garbage".to_string())));
    assert!(matches!(res, Err(ClientError::ProtocolError { .. })));
}

#[test]
fn private_call_sends_auth_first_then_the_request_and_returns_the_reply() {
    let c = client();
    let req = Request {
        id: 1,
        method: "private/buy".to_string(),
        params: json("{\"instrument_name\":\"BTC-PERPETUAL\",\"amount\":10}"),
    };
    let expected_request_frame = encode_request(&req);

    // The mock server's view: the first frame it observes is the auth request.
    let (call, auth_frame) = c.private_api(&req);
    assert_eq!(
        auth_frame,
        "{\"jsonrpc\":\"2.0\",\"id\":1,\"method\":\"public/auth\",\"params\":{\"grant_type\":\"client_credentials\",\"client_id\":\"my-id\",\"client_secret\":\"my-secret\"}}"
    );

    // The mock accepts any first frame; the second frame it observes is the
    // caller's request, sent only after the acknowledgment arrived.
    let ack = "{\"jsonrpc\":\"2.0\",\"id\":1,\"result\":{}}";
    let (call, step) = call.on_auth_ack(RecvOutcome::Frame(Frame::Text(ack.to_string())));
    let sent = match step {
        AuthStep::Proceed(frame) => frame,
        AuthStep::Abort(_) => panic!("auth ack arrived, the call must proceed"),
    };
    assert_eq!(sent, expected_request_frame);

    // The mock replies to the second frame with V; the call returns exactly V.
    let v = "{\"jsonrpc\":\"2.0\",\"id\":1,\"result\":{\"order\":{\"state\":\"open\"}}}";
    let (_done, res) = call.on_response(RecvOutcome::Frame(Frame::Text(v.to_string())));
    assert_eq!(res.unwrap(), json(v));
}

#[test]
fn private_call_fails_with_empty_response_before_auth_ack() {
    let c = client();
    let req = index_request();
    let (call, _auth_frame) = c.private_api(&req);
    let (_done, step) = call.on_auth_ack(RecvOutcome::Closed);
    match step {
        AuthStep::Abort(e) => assert!(matches!(e, ClientError::EmptyResponseError)),
        AuthStep::Proceed(_) => panic!("the request must not be sent without an auth ack"),
    }
}

#[test]
fn private_call_fails_with_empty_response_after_the_request() {
    let c = client();
    let (call, _auth_frame) = c.private_api(&index_request());
    let (call, step) = call.on_auth_ack(RecvOutcome::Frame(Frame::Text("null".to_string())));
    assert!(matches!(step, AuthStep::Proceed(_)));
    let (_done, res) = call.on_response(RecvOutcome::Closed);
    assert!(matches!(res, Err(ClientError::EmptyResponseError)));
}

#[test]
fn private_call_accepts_an_uninspected_auth_ack() {
    // The acknowledgment's content is not parsed or validated: even a
    // non-text frame gates the call forward.
    let c = client();
    let (call, _auth_frame) = c.private_api(&index_request());
    let (_call, step) = call.on_auth_ack(RecvOutcome::Frame(Frame::NonText));
    assert!(matches!(step, AuthStep::Proceed(_)));
}

#[test]
fn private_call_proceeds_past_a_transport_error_at_the_auth_gate() {
    // The acknowledgment wait tests only that the stream yielded an item:
    // an error item gates the call forward just as a frame does.
    let c = client();
    let (call, _auth_frame) = c.private_api(&index_request());
    let (_call, step) = call.on_auth_ack(RecvOutcome::Failed("tls error".to_string()));
    assert!(matches!(step, AuthStep::Proceed(_)));
}

#[test]
fn subscription_emits_every_frame_in_order_then_ends_cleanly() {
    let req = Request {
        id: 1,
        method: "public/subscribe".to_string(),
        params: json("{\"channels\":[\"deribit_price_index.btc_usd\"]}"),
    };
    let expected_frame = encode_request(&req);
    let (sub, frame) = client().public_subscribe(&req);
    assert_eq!(frame, expected_frame);

    let f1 = "{\"params\":{\"data\":{\"price\":1}}}";
    let f2 = "{\"params\":{\"data\":{\"price\":2}}}";
    let f3 = "{\"params\":{\"data\":{\"price\":3}}}";
    let mut sub = sub;
    let mut emitted = Vec::new();
    for text in [f1, f2, f3] {
        let (next, step) = sub.on_message(RecvOutcome::Frame(Frame::Text(text.to_string())));
        sub = next;
        match step {
            SubStep::Emit(v) => emitted.push(v),
            SubStep::Stop(_) => panic!("the subscription must keep listening"),
        }
    }
    assert_eq!(emitted, vec![json(f1), json(f2), json(f3)]);

    let (_done, step) = sub.on_message(RecvOutcome::Closed);
    match step {
        SubStep::Stop(r) => assert!(r.is_ok()),
        SubStep::Emit(_) => panic!("a closed stream emits nothing"),
    }
}

#[test]
fn subscription_stops_on_a_malformed_frame() {
    let (sub, _frame) = client().public_subscribe(&index_request());
    let (_done, step) = sub.on_message(RecvOutcome::Frame(Frame::Text("not json".to_string())));
    match step {
        SubStep::Stop(Err(ClientError::ProtocolError { .. })) => {}
        _ => panic!("expected the subscription to stop with a ProtocolError"),
    }
}

#[test]
fn subscription_stops_on_a_transport_failure() {
    let (sub, _frame) = client().public_subscribe(&index_request());
    let (_done, step) = sub.on_message(RecvOutcome::Failed("broken pipe".to_string()));
    match step {
        SubStep::Stop(Err(ClientError::ConnectionError { detail })) => {
            assert_eq!(detail, "broken pipe")
        }
        _ => panic!("expected the subscription to stop with a ConnectionError"),
    }
}
