use jsonrpc_v2::error::{Error, TextError};
use jsonrpc_v2::notification::NotificationBuilder;
use jsonrpc_v2::request::{decode_envelope, RequestObject};
use jsonrpc_v2::response::{decode_response, encode_response, ResponseObject};
use jsonrpc_v2::Id;

fn parse(text: &str) -> serde_json::Value {
    serde_json::from_str::<serde_json::Value>(text).unwrap()
}

#[test]
fn id_is_null_only_for_null() {
    assert!(Id::Null.is_null());
    assert!(!Id::Num(0).is_null());
    assert!(!Id::Str("null".to_string()).is_null());
}

#[test]
fn id_conversions_and_default() {
    match Id::from(5i64) {
        Id::Num(5) => {}
        _ => panic!("an integer converts to a numeric id"),
    }
    match Id::from("r1".to_string()) {
        Id::Str(s) => assert_eq!(s, "r1"),
        _ => panic!("a string converts to a string id"),
    }
    assert!(Id::default().is_null());
}

#[test]
fn id_renders_as_text() {
    assert_eq!(Id::Null.to_text(), "null");
    assert_eq!(Id::Str("job-4".to_string()).to_text(), "job-4");
    assert_eq!(Id::Num(0).to_text(), "0");
    assert_eq!(Id::Num(42).to_text(), "42");
    assert_eq!(Id::Num(-7).to_text(), "-7");
    assert_eq!(Id::Num(i64::MAX).to_text(), "9223372036854775807");
    assert_eq!(Id::Num(i64::MIN).to_text(), "-9223372036854775808");
}

#[test]
fn request_builder_builds_request() {
    let req = RequestObject::request()
        .with_id(Id::Num(5))
        .with_params(parse("[1,2]"))
        .with_method("add".to_string())
        .finish();
    assert_eq!(req.method, "add");
    assert_eq!(req.params, Some(parse("[1,2]")));
    match req.id {
        Some(Some(Id::Num(5))) => {}
        _ => panic!("expected a present id 5"),
    }
}

#[test]
fn notification_builder_omits_id() {
    let req = NotificationBuilder::default()
        .with_params(parse("{\"k\":1}"))
        .with_method("notify".to_string())
        .finish();
    assert_eq!(req.method, "notify");
    assert!(req.id.is_none());
}

#[test]
fn decode_envelope_accepts_minimal_request() {
    let v = parse("{\"jsonrpc\":\"2.0\",\"method\":\"m\"}");
    let req = decode_envelope(&v).unwrap();
    assert_eq!(req.method, "m");
    assert!(req.params.is_none());
    assert!(req.id.is_none());
}

#[test]
fn decode_envelope_rejects_bad_shapes() {
    assert!(decode_envelope(&parse("{\"jsonrpc\":\"1.0\",\"method\":\"m\"}")).is_err());
    assert!(decode_envelope(&parse("{\"method\":\"m\"}")).is_err());
    assert!(decode_envelope(&parse("{\"jsonrpc\":\"2.0\"}")).is_err());
    assert!(decode_envelope(&parse("{\"jsonrpc\":\"2.0\",\"method\":7}")).is_err());
    assert!(decode_envelope(&parse("{\"jsonrpc\":\"2.0\",\"method\":\"m\",\"id\":1.5}")).is_err());
    assert!(decode_envelope(&parse("{\"jsonrpc\":\"2.0\",\"method\":\"m\",\"params\":3}")).is_err());
    assert!(decode_envelope(&parse("[1,2]")).is_err());
    assert!(decode_envelope(&parse("\"m\"")).is_err());
}

#[test]
fn decode_envelope_id_tristate() {
    let absent = decode_envelope(&parse("{\"jsonrpc\":\"2.0\",\"method\":\"m\"}")).unwrap();
    assert!(absent.id.is_none());

    let null = decode_envelope(&parse("{\"jsonrpc\":\"2.0\",\"method\":\"m\",\"id\":null}"))
        .unwrap();
    match null.id {
        Some(None) => {}
        _ => panic!("expected a present null id"),
    }

    let num = decode_envelope(&parse("{\"jsonrpc\":\"2.0\",\"method\":\"m\",\"id\":7}")).unwrap();
    match num.id {
        Some(Some(Id::Num(7))) => {}
        _ => panic!("expected id 7"),
    }

    let text = decode_envelope(&parse("{\"jsonrpc\":\"2.0\",\"method\":\"m\",\"id\":\"abc\"}"))
        .unwrap();
    match text.id {
        Some(Some(Id::Str(s))) => assert_eq!(s, "abc"),
        _ => panic!("expected id \"abc\""),
    }
}

#[test]
fn reserved_error_constants() {
    let cases = [
        (Error::invalid_request(), -32600, "Invalid Request"),
        (Error::method_not_found(), -32601, "Method not found"),
        (Error::invalid_params(), -32602, "Invalid params"),
        (Error::internal_error(), -32603, "Internal Error"),
        (Error::parse_error(), -32700, "Parse error"),
    ];
    for (e, want_code, want_message) in cases {
        match e {
            Error::Provided { code, message } => {
                assert_eq!(code, want_code);
                assert_eq!(message, want_message);
            }
            _ => panic!("reserved constants are Provided"),
        }
    }
}

#[test]
fn internal_error_carries_text_in_data() {
    match Error::internal("boom") {
        Error::Full { code, message, data } => {
            assert_eq!(code, -32603);
            assert_eq!(message, "Internal Error");
            assert_eq!(data, Some(serde_json::Value::String("boom".to_string())));
        }
        _ => panic!("internal builds a Full error"),
    }
}

#[test]
fn text_error_maps_with_defaults() {
    let e = Error::from_error_like(&TextError { text: "oops".to_string() });
    match e {
        Error::Full { code, message, data } => {
            assert_eq!(code, 0);
            assert_eq!(message, "oops");
            assert!(data.is_none());
        }
        _ => panic!("mapping builds a Full error"),
    }
}

#[test]
fn response_result_round_trip() {
    let resp = ResponseObject::result(serde_json::Value::String("pong".to_string()), Id::Num(7));
    let encoded = encode_response(&resp);
    assert_eq!(
        encoded,
        parse("{\"jsonrpc\":\"2.0\",\"result\":\"pong\",\"id\":7}")
    );
    let text = serde_json::to_string(&encoded).unwrap();
    let back = decode_response(&serde_json::from_str(&text).unwrap()).unwrap();
    match back {
        ResponseObject::Success { result, id } => {
            assert_eq!(result, serde_json::Value::String("pong".to_string()));
            match id {
                Id::Num(7) => {}
                _ => panic!("id not preserved"),
            }
        }
        _ => panic!("result/error exclusivity lost"),
    }
}

#[test]
fn response_error_round_trip() {
    let resp = ResponseObject::error(Error::internal("why"), Id::Str("r1".to_string()));
    let encoded = encode_response(&resp);
    assert_eq!(
        encoded,
        parse(
            "{\"jsonrpc\":\"2.0\",\"error\":{\"code\":-32603,\"message\":\"Internal Error\",\
             \"data\":\"why\"},\"id\":\"r1\"}"
        )
    );
    let text = serde_json::to_string(&encoded).unwrap();
    let back = decode_response(&serde_json::from_str(&text).unwrap()).unwrap();
    match back {
        ResponseObject::Failure { error, id } => {
            match error {
                Error::Full { code, message, data } => {
                    assert_eq!(code, -32603);
                    assert_eq!(message, "Internal Error");
                    assert_eq!(data, Some(serde_json::Value::String("why".to_string())));
                }
                _ => panic!("decoded errors are Full"),
            }
            match id {
                Id::Str(s) => assert_eq!(s, "r1"),
                _ => panic!("id not preserved"),
            }
        }
        _ => panic!("result/error exclusivity lost"),
    }
}

#[test]
fn response_decode_rejects_result_and_error_together() {
    let v = parse(
        "{\"jsonrpc\":\"2.0\",\"result\":1,\"error\":{\"code\":1,\"message\":\"x\"},\"id\":1}",
    );
    assert!(decode_response(&v).is_err());
    let neither = parse("{\"jsonrpc\":\"2.0\",\"id\":1}");
    assert!(decode_response(&neither).is_err());
}
