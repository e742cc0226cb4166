//! The protocol error object and the mapping of domain errors into it.

use vstd::prelude::*;

use crate::json::{json_model, string_value, JsonShape};

verus! {

/// Mathematical model of an error object: a code, a message, and an
/// optional data payload.
pub struct ErrorView {
    pub code: int,
    pub message: Seq<char>,
    pub data: Option<JsonShape>,
}

/// Error object in a response.
pub enum Error {
    Full { code: i64, message: String, data: Option<serde_json::Value> },
    Provided { code: i64, message: String },
}

impl View for Error {
    type V = ErrorView;

    open spec fn view(&self) -> ErrorView {
        match self {
            Error::Full { code, message, data } => ErrorView {
                code: *code as int,
                message: message@,
                data: match data {
                    Some(v) => Some(json_model(*v)),
                    None => None,
                },
            },
            Error::Provided { code, message } => ErrorView {
                code: *code as int,
                message: message@,
                data: None,
            },
        }
    }
}

/// The reserved Invalid Request error.
pub open spec fn invalid_request_view() -> ErrorView {
    ErrorView { code: -32600, message: "Invalid Request"@, data: None }
}

/// The reserved Method not found error.
pub open spec fn method_not_found_view() -> ErrorView {
    ErrorView { code: -32601, message: "Method not found"@, data: None }
}

/// The reserved Invalid params error.
pub open spec fn invalid_params_view() -> ErrorView {
    ErrorView { code: -32602, message: "Invalid params"@, data: None }
}

/// The reserved Internal Error error, without a data payload.
pub open spec fn internal_error_view() -> ErrorView {
    ErrorView { code: -32603, message: "Internal Error"@, data: None }
}

/// The reserved Parse error error.
pub open spec fn parse_error_view() -> ErrorView {
    ErrorView { code: -32700, message: "Parse error"@, data: None }
}

impl Error {
    /// The reserved Invalid Request error object.
    pub fn invalid_request() -> (r: Error)
        ensures
            r@ == invalid_request_view(),
    {
        Error::Provided { code: -32600, message: "Invalid Request".to_owned() }
    }

    /// The reserved Method not found error object.
    pub fn method_not_found() -> (r: Error)
        ensures
            r@ == method_not_found_view(),
    {
        Error::Provided { code: -32601, message: "Method not found".to_owned() }
    }

    /// The reserved Invalid params error object.
    pub fn invalid_params() -> (r: Error)
        ensures
            r@ == invalid_params_view(),
    {
        Error::Provided { code: -32602, message: "Invalid params".to_owned() }
    }

    /// The reserved Internal Error error object.
    pub fn internal_error() -> (r: Error)
        ensures
            r@ == internal_error_view(),
    {
        Error::Provided { code: -32603, message: "Internal Error".to_owned() }
    }

    /// The reserved Parse error error object.
    pub fn parse_error() -> (r: Error)
        ensures
            r@ == parse_error_view(),
    {
        Error::Provided { code: -32700, message: "Parse error".to_owned() }
    }

    /// The catch-all wrapper for an arbitrary displayable failure: the
    /// Internal Error constant, with the failure's text carried in the
    /// error's `data` field so that `message` stays fixed.
    pub fn internal(text: &str) -> (r: Error)
        ensures
            r@ == (ErrorView {
                code: -32603,
                message: "Internal Error"@,
                data: Some(JsonShape::Str(text@)),
            }),
    {
        Error::Full {
            code: -32603,
            message: "Internal Error".to_owned(),
            data: Some(string_value(text)),
        }
    }
}

/// Trait that maps a custom domain error to the protocol [`Error`] object.
pub trait ErrorLike {
    /// The code the error maps to.
    spec fn code_spec(&self) -> int;

    /// The message the error maps to.
    spec fn message_spec(&self) -> Seq<char>;

    /// The data payload the error maps to, if any.
    spec fn data_spec(&self) -> Option<JsonShape>;

    /// Code to be used in the error object.
    fn code(&self) -> (r: i64)
        ensures
            r as int == self.code_spec(),
    ;

    /// Message to be used in the error object.
    fn message(&self) -> (r: String)
        ensures
            r@ == self.message_spec(),
    ;

    /// Any additional data to be sent with the error.
    fn data(&self) -> (r: Option<serde_json::Value>)
        ensures
            match r {
                Some(v) => self.data_spec() == Some(json_model(v)),
                None => self.data_spec() is None,
            },
    ;
}

impl Error {
    /// Map a domain error into the protocol error object through its
    /// [`ErrorLike`] capability.
    pub fn from_error_like<E: ErrorLike>(e: &E) -> (r: Error)
        ensures
            r@.code == e.code_spec(),
            r@.message == e.message_spec(),
            r@.data == e.data_spec(),
    {
        Error::Full { code: e.code(), message: e.message(), data: e.data() }
    }
}

/// A plain displayable domain error: the default mapping gives code `0`,
/// the error's own text as the message, and no data payload.
pub struct TextError {
    pub text: String,
}

impl ErrorLike for TextError {
    open spec fn code_spec(&self) -> int {
        0
    }

    open spec fn message_spec(&self) -> Seq<char> {
        self.text@
    }

    open spec fn data_spec(&self) -> Option<JsonShape> {
        None
    }

    fn code(&self) -> (r: i64) {
        0
    }

    fn message(&self) -> (r: String) {
        self.text.clone()
    }

    fn data(&self) -> (r: Option<serde_json::Value>) {
        None
    }
}

} // verus!
