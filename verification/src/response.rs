//! Response objects: the individual response, the containers for one,
//! many, or no responses, and the notification-suppression rule.

use vstd::prelude::*;

use crate::error::{Error, ErrorView};
use crate::json::{
    clone_value, i64_value, json_model, map_of_pairs, null_value, object_value, string_value,
    value_as_i64, value_as_string, value_get_field, value_is_null, JsonShape,
};
use crate::{Id, IdView};

verus! {

/// Mathematical model of an individual response object: exactly one of a
/// result payload or an error object, correlated by an identifier.
pub enum RespView {
    Success { result: JsonShape, id: IdView },
    Failure { error: ErrorView, id: IdView },
}

/// The individual response object.
pub enum ResponseObject {
    Success { result: serde_json::Value, id: Id },
    Failure { error: Error, id: Id },
}

impl View for ResponseObject {
    type V = RespView;

    open spec fn view(&self) -> RespView {
        match self {
            ResponseObject::Success { result, id } => RespView::Success {
                result: json_model(*result),
                id: id@,
            },
            ResponseObject::Failure { error, id } => RespView::Failure { error: error@, id: id@ },
        }
    }
}

impl ResponseObject {
    /// A result response with the given payload and identifier.
    pub fn result(result: serde_json::Value, id: Id) -> (r: Self)
        ensures
            r@ == (RespView::Success { result: json_model(result), id: id@ }),
    {
        ResponseObject::Success { result, id }
    }

    /// An error response with the given error object and identifier.
    pub fn error(error: Error, id: Id) -> (r: Self)
        ensures
            r@ == (RespView::Failure { error: error@, id: id@ }),
    {
        ResponseObject::Failure { error, id }
    }
}

/// Container for the response to one routed envelope: one response
/// object, or nothing for a suppressed reply.
pub enum SingleResponseObject {
    One(ResponseObject),
    Empty,
}

impl View for SingleResponseObject {
    type V = Option<RespView>;

    open spec fn view(&self) -> Option<RespView> {
        match self {
            SingleResponseObject::One(r) => Some(r@),
            SingleResponseObject::Empty => None,
        }
    }
}

impl SingleResponseObject {
    /// A result response correlated by the resolved identifier, suppressed
    /// entirely when that identifier is null.
    pub fn result(result: serde_json::Value, opt_id: Id) -> (r: Self)
        ensures
            r@ == (if opt_id@ is Null {
                None
            } else {
                Some(RespView::Success { result: json_model(result), id: opt_id@ })
            }),
    {
        match &opt_id {
            Id::Null => SingleResponseObject::Empty,
            _ => SingleResponseObject::One(ResponseObject::result(result, opt_id)),
        }
    }

    /// An error response correlated by the resolved identifier, suppressed
    /// entirely when that identifier is null.
    pub fn error(error: Error, opt_id: Id) -> (r: Self)
        ensures
            r@ == (if opt_id@ is Null {
                None
            } else {
                Some(RespView::Failure { error: error@, id: opt_id@ })
            }),
    {
        match &opt_id {
            Id::Null => SingleResponseObject::Empty,
            _ => SingleResponseObject::One(ResponseObject::error(error, opt_id)),
        }
    }
}

/// Container for the responses to a batch: the produced response objects,
/// or nothing when every member was suppressed.
pub enum ManyResponseObjects {
    Many(Vec<ResponseObject>),
    Empty,
}

impl View for ManyResponseObjects {
    type V = Option<Seq<RespView>>;

    open spec fn view(&self) -> Option<Seq<RespView>> {
        match self {
            ManyResponseObjects::Many(v) => Some(v@.map_values(|r: ResponseObject| r@)),
            ManyResponseObjects::Empty => None,
        }
    }
}

/// Mathematical model of the overall dispatch outcome.
pub enum RespsView {
    One(RespView),
    Many(Seq<RespView>),
    Empty,
}

/// Container for the response object(s), or `Empty` when no response body
/// is to be written at all.
pub enum ResponseObjects {
    One(ResponseObject),
    Many(Vec<ResponseObject>),
    Empty,
}

impl View for ResponseObjects {
    type V = RespsView;

    open spec fn view(&self) -> RespsView {
        match self {
            ResponseObjects::One(r) => RespsView::One(r@),
            ResponseObjects::Many(v) => RespsView::Many(v@.map_values(|r: ResponseObject| r@)),
            ResponseObjects::Empty => RespsView::Empty,
        }
    }
}

impl From<ManyResponseObjects> for ResponseObjects {
    fn from(t: ManyResponseObjects) -> (r: ResponseObjects) {
        match t {
            ManyResponseObjects::Many(many) => ResponseObjects::Many(many),
            ManyResponseObjects::Empty => ResponseObjects::Empty,
        }
    }
}

impl vstd::std_specs::convert::FromSpecImpl<ManyResponseObjects> for ResponseObjects {
    open spec fn obeys_from_spec() -> bool {
        true
    }

    open spec fn from_spec(t: ManyResponseObjects) -> ResponseObjects {
        match t {
            ManyResponseObjects::Many(many) => ResponseObjects::Many(many),
            ManyResponseObjects::Empty => ResponseObjects::Empty,
        }
    }
}

impl From<SingleResponseObject> for ResponseObjects {
    fn from(t: SingleResponseObject) -> (r: ResponseObjects) {
        match t {
            SingleResponseObject::One(one) => ResponseObjects::One(one),
            SingleResponseObject::Empty => ResponseObjects::Empty,
        }
    }
}

impl vstd::std_specs::convert::FromSpecImpl<SingleResponseObject> for ResponseObjects {
    open spec fn obeys_from_spec() -> bool {
        true
    }

    open spec fn from_spec(t: SingleResponseObject) -> ResponseObjects {
        match t {
            SingleResponseObject::One(one) => ResponseObjects::One(one),
            SingleResponseObject::Empty => ResponseObjects::Empty,
        }
    }
}

/// The JSON document an identifier serializes to.
pub open spec fn id_shape(i: IdView) -> JsonShape {
    match i {
        IdView::Num(n) => JsonShape::Int(n),
        IdView::Str(s) => JsonShape::Str(s),
        IdView::Null => JsonShape::Null,
    }
}

/// The JSON document an error object serializes to: code, message, and
/// the data field only when a payload is present.
pub open spec fn error_shape(e: ErrorView) -> JsonShape {
    match e.data {
        Some(d) => JsonShape::Obj(
            map_of_pairs(
                seq![
                    ("code"@, JsonShape::Int(e.code)),
                    ("message"@, JsonShape::Str(e.message)),
                    ("data"@, d),
                ],
            ),
        ),
        None => JsonShape::Obj(
            map_of_pairs(
                seq![("code"@, JsonShape::Int(e.code)), ("message"@, JsonShape::Str(e.message))],
            ),
        ),
    }
}

/// The JSON document a response object serializes to: the version
/// literal, exactly one of the result payload or the error object, and
/// the identifier.
pub open spec fn response_shape(r: RespView) -> JsonShape {
    match r {
        RespView::Success { result, id } => JsonShape::Obj(
            map_of_pairs(
                seq![
                    ("jsonrpc"@, JsonShape::Str("2.0"@)),
                    ("result"@, result),
                    ("id"@, id_shape(id)),
                ],
            ),
        ),
        RespView::Failure { error, id } => JsonShape::Obj(
            map_of_pairs(
                seq![
                    ("jsonrpc"@, JsonShape::Str("2.0"@)),
                    ("error"@, error_shape(error)),
                    ("id"@, id_shape(id)),
                ],
            ),
        ),
    }
}

/// The identifier a JSON document decodes into, if it is an admissible
/// identifier.
pub open spec fn id_of_id_shape(s: JsonShape) -> Option<IdView> {
    match s {
        JsonShape::Int(n) => Some(IdView::Num(n)),
        JsonShape::Str(t) => Some(IdView::Str(t)),
        JsonShape::Null => Some(IdView::Null),
        _ => None,
    }
}

/// The error object a JSON document decodes into, if any: an object with
/// an integer code and a string message, the data field optional.
pub open spec fn error_of_shape(s: JsonShape) -> Option<ErrorView> {
    match s {
        JsonShape::Obj(m) => {
            if m.contains_key("code"@) && m["code"@] is Int && m.contains_key("message"@)
                && m["message"@] is Str {
                Some(
                    ErrorView {
                        code: m["code"@]->Int_0,
                        message: m["message"@]->Str_0,
                        data: if m.contains_key("data"@) {
                            Some(m["data"@])
                        } else {
                            None
                        },
                    },
                )
            } else {
                None
            }
        },
        _ => None,
    }
}

/// The response a JSON document decodes into, if any: the version
/// literal must match, the identifier must be present and admissible,
/// and exactly one of the result and error fields must be present.
pub open spec fn response_of_shape(s: JsonShape) -> Option<RespView> {
    match s {
        JsonShape::Obj(m) => {
            if !(m.contains_key("jsonrpc"@) && m["jsonrpc"@] == JsonShape::Str("2.0"@)
                && m.contains_key("id"@)) {
                None
            } else {
                match id_of_id_shape(m["id"@]) {
                    None => None,
                    Some(id) => {
                        if m.contains_key("result"@) && !m.contains_key("error"@) {
                            Some(RespView::Success { result: m["result"@], id })
                        } else if m.contains_key("error"@) && !m.contains_key("result"@) {
                            match error_of_shape(m["error"@]) {
                                Some(e) => Some(RespView::Failure { error: e, id }),
                                None => None,
                            }
                        } else {
                            None
                        }
                    },
                }
            }
        },
        _ => None,
    }
}

/// Serialize an identifier into its JSON document.
pub fn encode_id(id: &Id) -> (v: serde_json::Value)
    ensures
        json_model(v) == id_shape(id@),
{
    match id {
        Id::Num(n) => i64_value(*n),
        Id::Str(s) => string_value(s.as_str()),
        Id::Null => null_value(),
    }
}

/// Serialize an error object into its JSON document.
pub fn encode_error(e: &Error) -> (v: serde_json::Value)
    ensures
        json_model(v) == error_shape(e@),
{
    let mut pairs: Vec<(String, serde_json::Value)> = Vec::new();
    match e {
        Error::Full { code, message, data } => {
            pairs.push(("code".to_owned(), i64_value(*code)));
            pairs.push(("message".to_owned(), string_value(message.as_str())));
            match data {
                Some(d) => {
                    pairs.push(("data".to_owned(), clone_value(d)));
                    let v = object_value(pairs);
                    proof {
                        assert(pairs@.map_values(
                            |p: (String, serde_json::Value)| (p.0@, json_model(p.1)),
                        ) =~= seq![
                            ("code"@, JsonShape::Int(e@.code)),
                            ("message"@, JsonShape::Str(e@.message)),
                            ("data"@, json_model(*d)),
                        ]);
                    }
                    v
                },
                None => {
                    let v = object_value(pairs);
                    proof {
                        assert(pairs@.map_values(
                            |p: (String, serde_json::Value)| (p.0@, json_model(p.1)),
                        ) =~= seq![
                            ("code"@, JsonShape::Int(e@.code)),
                            ("message"@, JsonShape::Str(e@.message)),
                        ]);
                    }
                    v
                },
            }
        },
        Error::Provided { code, message } => {
            pairs.push(("code".to_owned(), i64_value(*code)));
            pairs.push(("message".to_owned(), string_value(message.as_str())));
            let v = object_value(pairs);
            proof {
                assert(pairs@.map_values(
                    |p: (String, serde_json::Value)| (p.0@, json_model(p.1)),
                ) =~= seq![
                    ("code"@, JsonShape::Int(e@.code)),
                    ("message"@, JsonShape::Str(e@.message)),
                ]);
            }
            v
        },
    }
}

/// Serialize a response object into its JSON document.
pub fn encode_response(r: &ResponseObject) -> (v: serde_json::Value)
    ensures
        json_model(v) == response_shape(r@),
{
    let mut pairs: Vec<(String, serde_json::Value)> = Vec::new();
    pairs.push(("jsonrpc".to_owned(), string_value("2.0")));
    match r {
        ResponseObject::Success { result, id } => {
            pairs.push(("result".to_owned(), clone_value(result)));
            pairs.push(("id".to_owned(), encode_id(id)));
            let v = object_value(pairs);
            proof {
                assert(pairs@.map_values(
                    |p: (String, serde_json::Value)| (p.0@, json_model(p.1)),
                ) =~= seq![
                    ("jsonrpc"@, JsonShape::Str("2.0"@)),
                    ("result"@, json_model(*result)),
                    ("id"@, id_shape(id@)),
                ]);
            }
            v
        },
        ResponseObject::Failure { error, id } => {
            pairs.push(("error".to_owned(), encode_error(error)));
            pairs.push(("id".to_owned(), encode_id(id)));
            let v = object_value(pairs);
            proof {
                assert(pairs@.map_values(
                    |p: (String, serde_json::Value)| (p.0@, json_model(p.1)),
                ) =~= seq![
                    ("jsonrpc"@, JsonShape::Str("2.0"@)),
                    ("error"@, error_shape(error@)),
                    ("id"@, id_shape(id@)),
                ]);
            }
            v
        },
    }
}

/// Parse a JSON document back into a response object, failing exactly on
/// the documents that are not a well-formed response.
pub fn decode_response(v: &serde_json::Value) -> (r: Result<ResponseObject, ()>)
    ensures
        match r {
            Ok(resp) => response_of_shape(json_model(*v)) == Some(resp@),
            Err(_) => response_of_shape(json_model(*v)) is None,
        },
{
    let version = match value_get_field(v, "jsonrpc") {
        Some(f) => f,
        None => {
            return Err(());
        },
    };
    let version_text = match value_as_string(version) {
        Some(s) => s,
        None => {
            return Err(());
        },
    };
    if version_text != "2.0".to_owned() {
        return Err(());
    }
    let id_field = match value_get_field(v, "id") {
        Some(f) => f,
        None => {
            return Err(());
        },
    };
    let id: Id = if value_is_null(id_field) {
        Id::Null
    } else {
        match value_as_i64(id_field) {
            Some(n) => Id::Num(n),
            None => match value_as_string(id_field) {
                Some(s) => Id::Str(s),
                None => {
                    return Err(());
                },
            },
        }
    };
    let result_field = value_get_field(v, "result");
    let error_field = value_get_field(v, "error");
    match (result_field, error_field) {
        (Some(res), None) => Ok(ResponseObject::Success { result: clone_value(res), id }),
        (None, Some(err)) => {
            let code = match value_get_field(err, "code") {
                Some(c) => match value_as_i64(c) {
                    Some(n) => n,
                    None => {
                        return Err(());
                    },
                },
                None => {
                    return Err(());
                },
            };
            let message = match value_get_field(err, "message") {
                Some(m) => match value_as_string(m) {
                    Some(s) => s,
                    None => {
                        return Err(());
                    },
                },
                None => {
                    return Err(());
                },
            };
            let data = match value_get_field(err, "data") {
                Some(d) => Some(clone_value(d)),
                None => None,
            };
            Ok(ResponseObject::Failure { error: Error::Full { code, message, data }, id })
        },
        _ => Err(()),
    }
}

proof fn lemma_map_of_pairs2(a: (Seq<char>, JsonShape), b: (Seq<char>, JsonShape))
    ensures
        map_of_pairs(seq![a, b]) == Map::<Seq<char>, JsonShape>::empty().insert(a.0, a.1).insert(
            b.0,
            b.1,
        ),
{
    let s2 = seq![a, b];
    let s1 = seq![a];
    let s0 = Seq::<(Seq<char>, JsonShape)>::empty();
    assert(s2.drop_last() =~= s1);
    assert(s1.drop_last() =~= s0);
    assert(map_of_pairs(s0) =~= Map::<Seq<char>, JsonShape>::empty());
    assert(map_of_pairs(s1) =~= map_of_pairs(s0).insert(a.0, a.1));
    assert(map_of_pairs(s2) =~= map_of_pairs(s1).insert(b.0, b.1));
}

proof fn lemma_map_of_pairs3(
    a: (Seq<char>, JsonShape),
    b: (Seq<char>, JsonShape),
    c: (Seq<char>, JsonShape),
)
    ensures
        map_of_pairs(seq![a, b, c]) == Map::<Seq<char>, JsonShape>::empty().insert(
            a.0,
            a.1,
        ).insert(b.0, b.1).insert(c.0, c.1),
{
    let s3 = seq![a, b, c];
    let s2 = seq![a, b];
    assert(s3.drop_last() =~= s2);
    lemma_map_of_pairs2(a, b);
    assert(map_of_pairs(s3) =~= map_of_pairs(s2).insert(c.0, c.1));
}

proof fn lemma_wire_keys_distinct()
    ensures
        "jsonrpc"@ != "result"@,
        "jsonrpc"@ != "error"@,
        "jsonrpc"@ != "id"@,
        "jsonrpc"@ != "data"@,
        "result"@ != "error"@,
        "result"@ != "id"@,
        "result"@ != "data"@,
        "error"@ != "id"@,
        "error"@ != "data"@,
        "id"@ != "data"@,
        "code"@ != "message"@,
        "code"@ != "data"@,
        "message"@ != "data"@,
{
    reveal_strlit("jsonrpc");
    reveal_strlit("result");
    reveal_strlit("error");
    reveal_strlit("id");
    reveal_strlit("code");
    reveal_strlit("message");
    reveal_strlit("data");
    assert("jsonrpc"@.len() == 7);
    assert("result"@.len() == 6);
    assert("error"@.len() == 5);
    assert("id"@.len() == 2);
    assert("code"@.len() == 4);
    assert("message"@.len() == 7);
    assert("data"@.len() == 4);
    assert("code"@[0] == 'c');
    assert("data"@[0] == 'd');
}

/// Round-trip law: serializing a response object and parsing the
/// document back yields the response unchanged; in particular the
/// result/error exclusivity and the identifier are preserved.
pub proof fn lemma_response_round_trip(r: RespView)
    ensures
        response_of_shape(response_shape(r)) == Some(r),
{
    lemma_wire_keys_distinct();
    match r {
        RespView::Success { result, id } => {
            lemma_map_of_pairs3(
                ("jsonrpc"@, JsonShape::Str("2.0"@)),
                ("result"@, result),
                ("id"@, id_shape(id)),
            );
            let m = map_of_pairs(
                seq![
                    ("jsonrpc"@, JsonShape::Str("2.0"@)),
                    ("result"@, result),
                    ("id"@, id_shape(id)),
                ],
            );
            assert(!m.contains_key("error"@));
            assert(id_of_id_shape(id_shape(id)) == Some(id));
        },
        RespView::Failure { error, id } => {
            lemma_map_of_pairs3(
                ("jsonrpc"@, JsonShape::Str("2.0"@)),
                ("error"@, error_shape(error)),
                ("id"@, id_shape(id)),
            );
            let m = map_of_pairs(
                seq![
                    ("jsonrpc"@, JsonShape::Str("2.0"@)),
                    ("error"@, error_shape(error)),
                    ("id"@, id_shape(id)),
                ],
            );
            assert(!m.contains_key("result"@));
            assert(id_of_id_shape(id_shape(id)) == Some(id));
            match error.data {
                Some(d) => {
                    lemma_map_of_pairs3(
                        ("code"@, JsonShape::Int(error.code)),
                        ("message"@, JsonShape::Str(error.message)),
                        ("data"@, d),
                    );
                    assert(error_of_shape(error_shape(error)) == Some(error));
                },
                None => {
                    lemma_map_of_pairs2(
                        ("code"@, JsonShape::Int(error.code)),
                        ("message"@, JsonShape::Str(error.message)),
                    );
                    assert(error_of_shape(error_shape(error)) == Some(error));
                },
            }
        },
    }
}

} // verus!
