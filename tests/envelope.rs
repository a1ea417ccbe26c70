use solana_rpc_client::envelope::{build_request, classify_reply, frame_request, RemoteError, RpcReply};
use solana_rpc_client::error::TransportError;

#[test]
fn request_envelope() {
    assert_eq!(
        frame_request(7, "\"getSlot\"", "[]"),
        "{\"jsonrpc\":\"2.0\",\"id\":7,\"method\":\"getSlot\",\"params\":[]}"
    );
    assert_eq!(
        build_request(12, "get\"x", "{\"a\":1}"),
        "{\"jsonrpc\":\"2.0\",\"id\":12,\"method\":\"get\\\"x\",\"params\":{\"a\":1}}"
    );
}

#[test]
fn method_name_escaping() {
    assert_eq!(
        build_request(1, "a\\b\n\t\u{1}\u{1f}\u{8}\u{c}\r\u{e9}", "[]"),
        "{\"jsonrpc\":\"2.0\",\"id\":1,\"method\":\"a\\\\b\\n\\t\\u0001\\u001f\\b\\f\\r\u{e9}\",\"params\":[]}"
    );
}

#[test]
fn reply_judgement() {
    let ok = RpcReply { result: Some("42".to_string()), error: None };
    assert_eq!(classify_reply(200, "", Some(ok)).unwrap(), "42");

    let err = RpcReply {
        result: None,
        error: Some(RemoteError { code: -32601, message: "Method not found".to_string() }),
    };
    match classify_reply(200, "", Some(err)) {
        Err(TransportError::Rpc { code, message }) => {
            assert_eq!(code, -32601);
            assert_eq!(message, "Method not found");
        }
        other => panic!("unexpected {:?}", other),
    }

    assert!(matches!(classify_reply(200, "<html>", None), Err(TransportError::Decode(_))));
    let empty = RpcReply { result: None, error: None };
    assert!(matches!(classify_reply(200, "{}", Some(empty)), Err(TransportError::Decode(_))));

    let long = "x".repeat(300);
    match classify_reply(503, &long, None) {
        Err(TransportError::HttpStatus(503, snippet)) => assert_eq!(snippet.len(), 200),
        other => panic!("unexpected {:?}", other),
    }
    assert!(matches!(classify_reply(400, "bad", None), Err(TransportError::HttpStatus(400, ref b)) if b == "bad"));
}
