use lampo_jsonrpc::error::{decode_failure_message, rpc_failure_message, transport_failure_message};
use lampo_jsonrpc::{Error, RpcError};
use serde_json::Value;

fn boom() -> RpcError {
    RpcError { code: 7, message: "boom".to_string(), data: None }
}

#[test]
fn decode_failure_text_follows_cause() {
    let e = serde_json::from_str::<Value>("{").unwrap_err();
    let inner = e.to_string();
    let err = Error::from(e);
    assert!(matches!(err, Error::Json(_)));
    assert_eq!(err.to_string(), format!("JSON decode error: {inner}"));
    assert!(err.cause().is_some());
}

#[test]
fn malformed_payload_is_decode_failure() {
    let r: Result<Value, Error> = serde_json::from_str::<Value>("{").map_err(Error::from);
    assert!(matches!(r, Err(Error::Json(_))));
}

#[test]
fn transport_failure_text_follows_cause() {
    let e = std::io::Error::new(std::io::ErrorKind::Other, "broken pipe");
    let err = Error::from(e);
    assert!(matches!(err, Error::Io(_)));
    assert_eq!(err.to_string(), "IO error response: broken pipe");
    assert!(err.to_string().starts_with("IO error response: "));
    assert!(err.cause().is_none());
}

#[test]
fn rpc_error_round_trip() {
    let err = Error::from(boom());
    match &err {
        Error::Rpc(r) => assert_eq!(r, &boom()),
        _ => panic!("expected an error response"),
    }
    assert!(err.cause().is_none());
    let back = RpcError::from(err);
    assert_eq!(back.code, 7);
    assert_eq!(back.message, "boom");
    assert!(back.data.is_none());
    assert_eq!(back, boom());
}

#[test]
fn nonce_mismatch_to_wire() {
    let text = Error::NonceMismatch.to_string();
    let r = RpcError::from(Error::NonceMismatch);
    assert_eq!(r.code, -1);
    assert_eq!(r.message, text);
    assert_eq!(r.message, "Nonce of response did not match nonce of request");
    assert!(r.data.is_none());
}

#[test]
fn other_variants_to_wire() {
    let r = RpcError::from(Error::NoErrorOrResult);
    assert_eq!((r.code, r.message.as_str(), r.data.is_none()), (-1, "Malformed RPC response", true));
    let r = RpcError::from(Error::VersionMismatch);
    assert_eq!(r.code, -1);
    assert_eq!(r.message, "`jsonrpc` field set to non-\"2.0\"");
    let e = serde_json::from_str::<Value>("{").unwrap_err();
    let inner = e.to_string();
    let r = RpcError::from(Error::from(e));
    assert_eq!(r.code, -1);
    assert_eq!(r.message, format!("JSON decode error: {inner}"));
    assert!(r.data.is_none());
    let r = RpcError::from(Error::from(std::io::Error::new(std::io::ErrorKind::Other, "eof")));
    assert_eq!(r.message, "IO error response: eof");
}

#[test]
fn opaque_failure_becomes_rpc_error() {
    let err = Error::from(anyhow::Error::msg("disk full"));
    match err {
        Error::Rpc(r) => {
            assert_eq!(r, RpcError { code: -1, message: "disk full".to_string(), data: None });
        }
        _ => panic!("expected an error response"),
    }
}

#[test]
fn from_message_builds_error_response() {
    let err = Error::from_message("bad input".to_string());
    assert!(matches!(&err, Error::Rpc(r) if r.code == -1 && r.message == "bad input" && r.data.is_none()));
    let r = RpcError::from_message("x".to_string());
    assert_eq!(r, RpcError { code: -1, message: "x".to_string(), data: None });
}

#[test]
fn rpc_error_equality_is_structural() {
    let a = RpcError { code: 3, message: "m".to_string(), data: Some(Value::from(1)) };
    let b = RpcError { code: 3, message: "m".to_string(), data: Some(Value::from(1)) };
    assert_eq!(a, b);
    assert_eq!(a, a.clone());
    assert_ne!(a, RpcError { code: 4, ..b.clone() });
    assert_ne!(a, RpcError { message: "n".to_string(), ..b.clone() });
    assert_ne!(a, RpcError { data: Some(Value::from(2)), ..b.clone() });
    assert_ne!(a, RpcError { data: None, ..b.clone() });
    assert_ne!(
        RpcError { data: Some(Value::Null), ..b.clone() },
        RpcError { data: None, ..b.clone() }
    );
    assert_eq!(boom(), boom());
}

#[test]
fn version_mismatch_text() {
    assert_eq!(Error::VersionMismatch.to_string(), "`jsonrpc` field set to non-\"2.0\"");
    assert!(Error::VersionMismatch.cause().is_none());
}

#[test]
fn fixed_texts() {
    assert_eq!(Error::NoErrorOrResult.to_string(), "Malformed RPC response");
    assert_eq!(
        Error::NonceMismatch.to_string(),
        "Nonce of response did not match nonce of request"
    );
}

#[test]
fn rpc_failure_text_is_debug_of_payload() {
    let err = Error::from(boom());
    assert_eq!(
        err.to_string(),
        "RPC error response: RpcError { code: 7, message: \"boom\", data: None }"
    );
    assert_eq!(err.to_string(), format!("RPC error response: {:?}", boom()));
}

#[test]
fn debug_string_matches_debug() {
    let mut data = serde_json::Map::new();
    data.insert("k".to_string(), Value::from(vec![Value::from(1.5), Value::Null]));
    let cases = vec![
        RpcError { code: 0, message: String::new(), data: None },
        RpcError { code: -32601, message: "Method not found".to_string(), data: None },
        RpcError { code: i32::MIN, message: "q\"uote\n".to_string(), data: Some(Value::from("s")) },
        RpcError { code: i32::MAX, message: "ü".to_string(), data: Some(Value::Object(data)) },
        RpcError { code: 10, message: "x".to_string(), data: Some(Value::from(true)) },
    ];
    for r in cases {
        assert_eq!(r.debug_string(), format!("{r:?}"));
    }
    let r = RpcError { code: -32601, message: "m".to_string(), data: Some(Value::from(5)) };
    assert_eq!(
        r.debug_string(),
        "RpcError { code: -32601, message: \"m\", data: Some(Number(5)) }"
    );
}

#[test]
fn message_builders() {
    assert_eq!(decode_failure_message("eof"), "JSON decode error: eof");
    assert_eq!(transport_failure_message("reset"), "IO error response: reset");
    assert_eq!(
        rpc_failure_message(&RpcError { code: -2, message: "a\\b".to_string(), data: None }),
        "RPC error response: RpcError { code: -2, message: \"a\\\\b\", data: None }"
    );
}
