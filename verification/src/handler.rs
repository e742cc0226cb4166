//! The handler abstraction: the uniform calling interface every
//! registered method handler is stored behind, and a few ready-made
//! handlers.

use vstd::prelude::*;

use crate::error::{invalid_params_view, Error, ErrorView};
use crate::json::{clone_value, json_model, string_value, JsonShape};
use crate::request::{ReqView, RequestObject};

verus! {

/// The uniform calling interface of a registered method handler: from an
/// envelope and a per-call context to a result payload or an error.
///
/// `call_spec` is the handler's own statement of what it computes; `call`
/// must return exactly that. A strongly-typed handler whose parameter
/// extraction or output serialization cannot be stated to Verus is adapted
/// into this interface outside the verified library.
pub trait Handler<M>: Sized {
    /// What the handler returns for a given envelope and context.
    spec fn call_spec(&self, req: ReqView, meta: M) -> Result<JsonShape, ErrorView>;

    /// Invoke the handler.
    fn call(&self, req: RequestObject, meta: M) -> (r: Result<serde_json::Value, Error>)
        ensures
            match r {
                Ok(v) => self.call_spec(req@, meta) == Ok::<JsonShape, ErrorView>(json_model(v)),
                Err(e) => self.call_spec(req@, meta) == Err::<JsonShape, ErrorView>(e@),
            },
    ;
}

/// The strongly-typed calling convention a plain handler function
/// follows: extracted parameters and a context in, a typed result out.
/// Such a handler is adapted into [`Handler`] outside the verified
/// library, where its parameter extraction and output serialization live.
pub trait Factory<S, E, T, M> {
    /// Invoke the typed handler.
    fn call(&self, param: T, metadata: M) -> Result<S, E>;
}

/// A handler that answers every call with a fixed payload.
pub struct FixedHandler {
    pub value: serde_json::Value,
}

impl<M> Handler<M> for FixedHandler {
    open spec fn call_spec(&self, req: ReqView, meta: M) -> Result<JsonShape, ErrorView> {
        Ok(json_model(self.value))
    }

    fn call(&self, req: RequestObject, meta: M) -> (r: Result<serde_json::Value, Error>) {
        Ok(clone_value(&self.value))
    }
}

/// A handler that answers with the name of the method it was called as.
pub struct EchoMethodHandler {}

impl<M> Handler<M> for EchoMethodHandler {
    open spec fn call_spec(&self, req: ReqView, meta: M) -> Result<JsonShape, ErrorView> {
        Ok(JsonShape::Str(req.method))
    }

    fn call(&self, req: RequestObject, meta: M) -> (r: Result<serde_json::Value, Error>) {
        Ok(string_value(req.method.as_str()))
    }
}

/// A handler whose parameter extraction requires a params field: it
/// answers with the supplied params, and fails with the reserved Invalid
/// params error when the field is absent.
pub struct EchoParamsHandler {}

impl<M> Handler<M> for EchoParamsHandler {
    open spec fn call_spec(&self, req: ReqView, meta: M) -> Result<JsonShape, ErrorView> {
        match req.params {
            Some(p) => Ok(p),
            None => Err(invalid_params_view()),
        }
    }

    fn call(&self, req: RequestObject, meta: M) -> (r: Result<serde_json::Value, Error>) {
        match &req.params {
            Some(p) => Ok(clone_value(p)),
            None => Err(Error::invalid_params()),
        }
    }
}

} // verus!
