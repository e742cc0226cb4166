use jsonrpc_v2::error::Error;
use jsonrpc_v2::handler::{EchoMethodHandler, EchoParamsHandler, FixedHandler};
use jsonrpc_v2::middleware::{LoggerMiddleware, MethodSuffixMiddleware, RejectMiddleware};
use jsonrpc_v2::request::{RequestKind, RequestObject};
use jsonrpc_v2::response::{
    encode_response, ResponseObject, ResponseObjects, SingleResponseObject,
};
use jsonrpc_v2::server::Server;
use jsonrpc_v2::Id;

fn pong() -> serde_json::Value {
    serde_json::Value::String("pong".to_string())
}

fn ping_server() -> Server<FixedHandler, LoggerMiddleware> {
    Server::new(Vec::new())
        .with_method("ping".to_string(), FixedHandler { value: pong() })
        .finish_unwrapped()
}

fn request(method: &str, id: Option<Option<Id>>) -> RequestObject {
    RequestObject { method: method.to_string(), params: None, id }
}

#[test]
fn single_request_gets_one_response_with_matching_id() {
    let server = ping_server();
    let resp = server.handle_request_object(request("ping", Some(Some(Id::Num(1)))), ());
    match resp {
        SingleResponseObject::One(ResponseObject::Success { result, id }) => {
            assert_eq!(result, pong());
            match id {
                Id::Num(1) => {}
                _ => panic!("response id must equal the request id"),
            }
        }
        _ => panic!("expected exactly one success response"),
    }
}

#[test]
fn failing_call_with_id_still_gets_one_response() {
    let server = Server::<EchoParamsHandler, LoggerMiddleware>::new(Vec::new())
        .with_method("extract".to_string(), EchoParamsHandler {})
        .finish_unwrapped();
    let resp = server.handle_request_object(request("extract", Some(Some(Id::Num(4)))), ());
    match resp {
        SingleResponseObject::One(ResponseObject::Failure { error: _, id }) => match id {
            Id::Num(4) => {}
            _ => panic!("error response id must equal the request id"),
        },
        _ => panic!("expected exactly one error response"),
    }
}

#[test]
fn notification_produces_no_body() {
    let server = ping_server();
    match server.handle_request_object(request("ping", None), ()) {
        SingleResponseObject::Empty => {}
        _ => panic!("a notification never gets a reply"),
    }
    // The same holds when the handler fails.
    let failing = Server::<EchoParamsHandler, LoggerMiddleware>::new(Vec::new())
        .with_method("extract".to_string(), EchoParamsHandler {})
        .finish_unwrapped();
    match failing.handle_request_object(request("extract", None), ()) {
        SingleResponseObject::Empty => {}
        _ => panic!("a failing notification never gets a reply either"),
    }
}

#[test]
fn explicit_null_id_produces_no_body() {
    let server = ping_server();
    match server.handle_request_object(request("ping", Some(None)), ()) {
        SingleResponseObject::Empty => {}
        _ => panic!("an explicitly null id suppresses the reply"),
    }
}

#[test]
fn empty_batch_yields_single_invalid_request() {
    let server = ping_server();
    match server.handle_bytes(b"[]", ()) {
        ResponseObjects::One(ResponseObject::Failure { error, id }) => {
            match error {
                Error::Provided { code, message } => {
                    assert_eq!(code, -32600);
                    assert_eq!(message, "Invalid Request");
                }
                _ => panic!("expected the reserved Invalid Request error"),
            }
            assert!(id.is_null());
        }
        _ => panic!("an empty batch is one top-level error, not a list"),
    }
}

#[test]
fn batch_with_valid_notification_and_malformed_members() {
    let server = ping_server();
    let bytes = "[{\"jsonrpc\":\"2.0\",\"method\":\"ping\",\"id\":1},{\"jsonrpc\":\"2.0\",\"method\":\"ping\"},{\"bad\":\"json\"}]";
    match server.handle_bytes(bytes.as_bytes(), ()) {
        ResponseObjects::Many(list) => {
            assert_eq!(list.len(), 2);
            match &list[0] {
                ResponseObject::Success { result, id } => {
                    assert_eq!(*result, pong());
                    match id {
                        Id::Num(1) => {}
                        _ => panic!("first entry answers the call with id 1"),
                    }
                }
                _ => panic!("first entry is the successful call"),
            }
            match &list[1] {
                ResponseObject::Failure { error, id } => {
                    match error {
                        Error::Provided { code, .. } => assert_eq!(*code, -32600),
                        _ => panic!("malformed member maps to Invalid Request"),
                    }
                    assert!(id.is_null());
                }
                _ => panic!("second entry is the malformed member's error"),
            }
        }
        _ => panic!("expected a two-element list"),
    }
}

#[test]
fn unknown_method_yields_method_not_found() {
    let server = ping_server();
    let resp = server.handle_request_object(request("foo.bar", Some(Some(Id::Num(9)))), ());
    match resp {
        SingleResponseObject::One(ResponseObject::Failure { error, id }) => {
            match error {
                Error::Provided { code, message } => {
                    assert_eq!(code, -32601);
                    assert_eq!(message, "Method not found");
                }
                _ => panic!("expected the reserved Method not found error"),
            }
            match id {
                Id::Num(9) => {}
                _ => panic!("correlated to the caller's id"),
            }
        }
        _ => panic!("expected exactly one error response"),
    }
}

#[test]
fn extractor_failure_yields_invalid_params() {
    let server = Server::<EchoParamsHandler, LoggerMiddleware>::new(Vec::new())
        .with_method("extract".to_string(), EchoParamsHandler {})
        .finish_unwrapped();
    let resp = server.handle_request_object(request("extract", Some(Some(Id::Num(2)))), ());
    match resp {
        SingleResponseObject::One(ResponseObject::Failure { error, .. }) => match error {
            Error::Provided { code, message } => {
                assert_eq!(code, -32602);
                assert_eq!(message, "Invalid params");
            }
            _ => panic!("expected the reserved Invalid params error"),
        },
        _ => panic!("expected exactly one error response"),
    }
}

#[test]
fn middleware_order_is_globals_then_route_then_handler() {
    let globals = vec![
        MethodSuffixMiddleware { suffix: "a".to_string() },
        MethodSuffixMiddleware { suffix: "b".to_string() },
    ];
    let server = Server::<EchoMethodHandler, MethodSuffixMiddleware>::new(globals)
        .with_method_middleware(
            "m".to_string(),
            EchoMethodHandler {},
            vec![MethodSuffixMiddleware { suffix: "c".to_string() }],
        )
        .finish_unwrapped();
    let resp = server.handle_request_object(request("m", Some(Some(Id::Num(1)))), ());
    match resp {
        SingleResponseObject::One(ResponseObject::Success { result, .. }) => {
            assert_eq!(result, serde_json::Value::String("mabc".to_string()));
        }
        _ => panic!("expected the tagged method name back"),
    }
}

#[test]
fn middleware_short_circuit_skips_rest_and_handler() {
    let globals = vec![RejectMiddleware { code: 7, message: "stop".to_string() }];
    let server = Server::<EchoMethodHandler, RejectMiddleware>::new(globals)
        .with_method_middleware(
            "m".to_string(),
            EchoMethodHandler {},
            vec![RejectMiddleware { code: 9, message: "later".to_string() }],
        )
        .finish_unwrapped();
    let resp = server.handle_request_object(request("m", Some(Some(Id::Num(1)))), ());
    match resp {
        SingleResponseObject::One(ResponseObject::Failure { error, .. }) => match error {
            Error::Provided { code, message } => {
                assert_eq!(code, 7);
                assert_eq!(message, "stop");
            }
            _ => panic!("expected the first middleware's error"),
        },
        _ => panic!("a short-circuit still answers a call that has an id"),
    }
}

#[test]
fn pure_handler_twice_gives_identical_bytes() {
    let server = ping_server();
    let mut texts: Vec<String> = Vec::new();
    for _ in 0..2 {
        let resp = server.handle_request_object(request("ping", Some(Some(Id::Num(3)))), ());
        match resp {
            SingleResponseObject::One(one) => {
                texts.push(serde_json::to_string(&encode_response(&one)).unwrap());
            }
            _ => panic!("expected a response"),
        }
    }
    assert_eq!(texts[0], texts[1]);
}

#[test]
fn malformed_bytes_yield_parse_error() {
    let server = ping_server();
    match server.handle_bytes(b"{nope", ()) {
        ResponseObjects::One(ResponseObject::Failure { error, id }) => {
            match error {
                Error::Provided { code, message } => {
                    assert_eq!(code, -32700);
                    assert_eq!(message, "Parse error");
                }
                _ => panic!("expected the reserved Parse error"),
            }
            assert!(id.is_null());
        }
        _ => panic!("malformed bytes give one top-level error"),
    }
}

#[test]
fn batch_of_only_notifications_gives_no_body() {
    let server = ping_server();
    let bytes = b"[{\"jsonrpc\":\"2.0\",\"method\":\"ping\"},{\"jsonrpc\":\"2.0\",\"method\":\"ping\"}]";
    match server.handle_bytes(bytes, ()) {
        ResponseObjects::Empty => {}
        _ => panic!("a batch of notifications writes no body at all"),
    }
}

#[test]
fn single_invalid_envelope_yields_invalid_request() {
    let server = ping_server();
    match server.handle_bytes(b"{\"jsonrpc\":\"2.0\"}", ()) {
        ResponseObjects::One(ResponseObject::Failure { error, .. }) => match error {
            Error::Provided { code, .. } => assert_eq!(code, -32600),
            _ => panic!("expected the reserved Invalid Request error"),
        },
        _ => panic!("an invalid envelope gives one top-level error"),
    }
}

#[test]
fn whitespace_before_batch_still_dispatches_as_batch() {
    let server = ping_server();
    let bytes = b"  [{\"jsonrpc\":\"2.0\",\"method\":\"ping\",\"id\":1}]";
    match server.handle_bytes(bytes, ()) {
        ResponseObjects::Many(list) => assert_eq!(list.len(), 1),
        _ => panic!("the first significant byte decides batch against single"),
    }
}

#[test]
fn reinserting_a_method_overwrites_the_route() {
    let one = serde_json::Value::from(1i64);
    let two = serde_json::Value::from(2i64);
    let server = Server::<FixedHandler, LoggerMiddleware>::new(Vec::new())
        .with_method("m".to_string(), FixedHandler { value: one })
        .with_method("m".to_string(), FixedHandler { value: two.clone() })
        .finish_unwrapped();
    match server.handle_request_object(request("m", Some(Some(Id::Num(1)))), ()) {
        SingleResponseObject::One(ResponseObject::Success { result, .. }) => {
            assert_eq!(result, two);
        }
        _ => panic!("the last insert for a name wins"),
    }
}

#[test]
fn handle_dispatches_each_request_kind() {
    let server = ping_server();

    let single = RequestKind::RequestObject(request("ping", Some(Some(Id::Num(1)))));
    match server.handle(single, ()) {
        ResponseObjects::One(ResponseObject::Success { .. }) => {}
        _ => panic!("a single request kind gives one response"),
    }

    let many = RequestKind::ManyRequestObjects(vec![
        request("ping", Some(Some(Id::Num(1)))),
        request("ping", None),
        request("ping", Some(Some(Id::Num(2)))),
    ]);
    match server.handle(many, ()) {
        ResponseObjects::Many(list) => {
            assert_eq!(list.len(), 2);
            match (&list[0], &list[1]) {
                (
                    ResponseObject::Success { id: Id::Num(1), .. },
                    ResponseObject::Success { id: Id::Num(2), .. },
                ) => {}
                _ => panic!("responses keep the input order of the produced entries"),
            }
        }
        _ => panic!("a list of requests gives a list of responses"),
    }

    let bytes = RequestKind::Bytes(b"{\"jsonrpc\":\"2.0\",\"method\":\"ping\",\"id\":5}".to_vec());
    match server.handle(bytes, ()) {
        ResponseObjects::One(ResponseObject::Success { result, .. }) => {
            assert_eq!(result, pong());
        }
        _ => panic!("raw bytes follow the single path"),
    }
}
