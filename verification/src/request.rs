//! Request envelopes: the wire-format request object, its identifier
//! tristate, and the validated decoding of a parsed JSON document into an
//! envelope.

use vstd::prelude::*;

use crate::json::{
    clone_value, json_model, value_as_i64, value_as_string, value_get_field, value_is_array,
    value_is_null, value_is_object, JsonShape,
};
use crate::{Id, IdView};

verus! {

/// Mathematical model of a request envelope.
pub struct ReqView {
    pub method: Seq<char>,
    pub params: Option<JsonShape>,
    /// The identifier tristate: `None` when the field is absent,
    /// `Some(None)` when it is present and null, `Some(Some(id))` when it
    /// is present with a concrete identifier.
    pub id: Option<Option<IdView>>,
}

/// Request/Notification object.
pub struct RequestObject {
    pub method: String,
    pub params: Option<serde_json::Value>,
    /// `None`: id field absent; `Some(None)`: id field present and null;
    /// `Some(Some(id))`: id field present with a concrete identifier.
    pub id: Option<Option<Id>>,
}

impl View for RequestObject {
    type V = ReqView;

    open spec fn view(&self) -> ReqView {
        ReqView {
            method: self.method@,
            params: match self.params {
                Some(v) => Some(json_model(v)),
                None => None,
            },
            id: match self.id {
                Some(Some(i)) => Some(Some(i@)),
                Some(None) => Some(None),
                None => None,
            },
        }
    }
}

/// The identifier a reply would be correlated by: the concrete id when one
/// was given, and the null identifier when the id field was absent or null.
pub open spec fn resolved_id(id: Option<Option<IdView>>) -> IdView {
    match id {
        Some(Some(i)) => i,
        _ => IdView::Null,
    }
}

/// Whether a reply to an envelope with this id field is suppressed: it is
/// exactly when the resolved identifier is null, that is when the id field
/// was absent, explicitly null, or the null identifier.
pub open spec fn suppresses_reply(id: Option<Option<IdView>>) -> bool {
    resolved_id(id) is Null
}

/// Whether a JSON shape is admissible as the `id` field of an envelope.
pub open spec fn id_shape_ok(s: JsonShape) -> bool {
    s is Null || s is Int || s is Str
}

/// The inner identifier an admissible `id` field shape carries: `None`
/// for an explicit null, the concrete identifier otherwise.
pub open spec fn id_view_of(s: JsonShape) -> Option<IdView> {
    match s {
        JsonShape::Int(n) => Some(IdView::Num(n)),
        JsonShape::Str(t) => Some(IdView::Str(t)),
        _ => None,
    }
}

/// Whether a JSON shape is admissible as the `params` field of an
/// envelope: it must be an object or an array.
pub open spec fn params_shape_ok(s: JsonShape) -> bool {
    s is Obj || s is Arr
}

/// The envelope a parsed JSON document decodes into, if any: the document
/// must be an object whose `jsonrpc` field is exactly the string "2.0",
/// whose `method` field is a string, whose `params` field, if present, is
/// an object or an array, and whose `id` field, if present, is a number
/// representable as a signed 64-bit integer, a string, or null.
pub open spec fn envelope_of_shape(s: JsonShape) -> Option<ReqView> {
    match s {
        JsonShape::Obj(m) => {
            if m.contains_key("jsonrpc"@) && m["jsonrpc"@] == JsonShape::Str("2.0"@)
                && m.contains_key("method"@) && m["method"@] is Str && (!m.contains_key("params"@)
                || params_shape_ok(m["params"@])) && (!m.contains_key("id"@) || id_shape_ok(
                m["id"@],
            )) {
                Some(
                    ReqView {
                        method: m["method"@]->Str_0,
                        params: if m.contains_key("params"@) {
                            Some(m["params"@])
                        } else {
                            None
                        },
                        id: if m.contains_key("id"@) {
                            Some(id_view_of(m["id"@]))
                        } else {
                            None
                        },
                    },
                )
            } else {
                None
            }
        },
        _ => None,
    }
}

/// Decode a parsed JSON document into a request envelope, failing exactly
/// on the documents that are not a well-formed envelope.
pub fn decode_envelope(v: &serde_json::Value) -> (r: Result<RequestObject, ()>)
    ensures
        match r {
            Ok(req) => envelope_of_shape(json_model(*v)) == Some(req@),
            Err(_) => envelope_of_shape(json_model(*v)) is None,
        },
{
    let version = match value_get_field(v, "jsonrpc") {
        Some(f) => f,
        None => {
            return Err(());
        },
    };
    let version_text = match value_as_string(version) {
        Some(s) => s,
        None => {
            return Err(());
        },
    };
    if version_text != "2.0".to_owned() {
        return Err(());
    }
    let method = match value_get_field(v, "method") {
        Some(f) => f,
        None => {
            return Err(());
        },
    };
    let method_text = match value_as_string(method) {
        Some(s) => s,
        None => {
            return Err(());
        },
    };
    let params: Option<serde_json::Value> = match value_get_field(v, "params") {
        Some(p) => {
            if value_is_object(p) || value_is_array(p) {
                Some(clone_value(p))
            } else {
                return Err(());
            }
        },
        None => None,
    };
    let id: Option<Option<Id>> = match value_get_field(v, "id") {
        Some(f) => {
            if value_is_null(f) {
                Some(None)
            } else {
                match value_as_i64(f) {
                    Some(n) => Some(Some(Id::Num(n))),
                    None => match value_as_string(f) {
                        Some(s) => Some(Some(Id::Str(s))),
                        None => {
                            return Err(());
                        },
                    },
                }
            }
        },
        None => None,
    };
    Ok(RequestObject { method: method_text, params, id })
}

/// An enum for the different kinds of possible requests: a single request
/// object, an array of request objects, or raw bytes.
pub enum RequestKind {
    RequestObject(RequestObject),
    ManyRequestObjects(Vec<RequestObject>),
    Bytes(Vec<u8>),
}

/// Mathematical model of a request kind.
pub enum KindView {
    One(ReqView),
    Many(Seq<ReqView>),
    Bytes(Seq<u8>),
}

impl View for RequestKind {
    type V = KindView;

    open spec fn view(&self) -> KindView {
        match self {
            RequestKind::RequestObject(r) => KindView::One(r@),
            RequestKind::ManyRequestObjects(v) => KindView::Many(
                v@.map_values(|q: RequestObject| q@),
            ),
            RequestKind::Bytes(b) => KindView::Bytes(b@),
        }
    }
}

impl From<RequestObject> for RequestKind {
    fn from(t: RequestObject) -> (r: RequestKind) {
        RequestKind::RequestObject(t)
    }
}

impl vstd::std_specs::convert::FromSpecImpl<RequestObject> for RequestKind {
    open spec fn obeys_from_spec() -> bool {
        true
    }

    open spec fn from_spec(t: RequestObject) -> RequestKind {
        RequestKind::RequestObject(t)
    }
}

impl From<Vec<RequestObject>> for RequestKind {
    fn from(t: Vec<RequestObject>) -> (r: RequestKind) {
        RequestKind::ManyRequestObjects(t)
    }
}

impl vstd::std_specs::convert::FromSpecImpl<Vec<RequestObject>> for RequestKind {
    open spec fn obeys_from_spec() -> bool {
        true
    }

    open spec fn from_spec(t: Vec<RequestObject>) -> RequestKind {
        RequestKind::ManyRequestObjects(t)
    }
}

impl From<Vec<u8>> for RequestKind {
    fn from(t: Vec<u8>) -> (r: RequestKind) {
        RequestKind::Bytes(t)
    }
}

impl vstd::std_specs::convert::FromSpecImpl<Vec<u8>> for RequestKind {
    open spec fn obeys_from_spec() -> bool {
        true
    }

    open spec fn from_spec(t: Vec<u8>) -> RequestKind {
        RequestKind::Bytes(t)
    }
}

/// Builder struct for a request object.
pub struct RequestBuilder<M = ()> {
    pub id: Id,
    pub params: Option<serde_json::Value>,
    pub method: M,
}

impl<M> RequestBuilder<M> {
    /// Set the request identifier.
    pub fn with_id(self, id: Id) -> (r: Self)
        ensures
            r.id == id,
            r.params == self.params,
            r.method == self.method,
    {
        RequestBuilder { id, params: self.params, method: self.method }
    }

    /// Set the request parameters.
    pub fn with_params(self, params: serde_json::Value) -> (r: Self)
        ensures
            r.id == self.id,
            r.params == Some(params),
            r.method == self.method,
    {
        RequestBuilder { id: self.id, params: Some(params), method: self.method }
    }
}

impl RequestBuilder<()> {
    /// Set the method name.
    pub fn with_method(self, method: String) -> (r: RequestBuilder<String>)
        ensures
            r.id == self.id,
            r.params == self.params,
            r.method == method,
    {
        RequestBuilder { id: self.id, params: self.params, method }
    }
}

impl RequestBuilder<String> {
    /// Build the request object; its id field is present with the chosen
    /// identifier.
    pub fn finish(self) -> (r: RequestObject)
        ensures
            r@.method == self.method@,
            r@.params == (match self.params {
                Some(v) => Some(json_model(v)),
                None => None::<JsonShape>,
            }),
            r@.id == Some(Some(self.id@)),
    {
        RequestObject { method: self.method, params: self.params, id: Some(Some(self.id)) }
    }
}

impl Default for RequestBuilder<()> {
    /// An empty builder: null id, no params.
    fn default() -> (r: Self)
        ensures
            r.id@ is Null,
            r.params is None,
    {
        RequestBuilder { id: Id::Null, params: None, method: () }
    }
}

impl RequestObject {
    /// Start building a request object.
    pub fn request() -> (r: RequestBuilder)
        ensures
            r.id@ is Null,
            r.params is None,
    {
        RequestBuilder { id: Id::Null, params: None, method: () }
    }

    /// Start building a notification request object.
    pub fn notification() -> (r: crate::notification::NotificationBuilder)
        ensures
            r.params is None,
    {
        crate::notification::NotificationBuilder { params: None, method: () }
    }
}

/// Wrapper for request params, extracted by position or by name on the
/// unverified side of a handler.
pub struct Params<T>(pub T);

/// Data/state storage container.
pub struct Data<T>(pub std::sync::Arc<T>);

impl<T> Data<T> {
    /// Wrap a value for shared storage.
    pub fn new(t: T) -> (r: Self)
        ensures
            r.0 == t,
    {
        Data(std::sync::Arc::new(t))
    }
}

/// A placeholder request parameter type that carries nothing.
pub struct DummyReq {}

} // verus!
