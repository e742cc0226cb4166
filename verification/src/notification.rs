//! Builder for notification request objects: requests whose id field is
//! absent, so that no reply is ever produced for them.

use vstd::prelude::*;

use crate::json::{json_model, JsonShape};
use crate::request::RequestObject;

verus! {

/// Builder struct for a notification request object.
pub struct NotificationBuilder<M = ()> {
    pub params: Option<serde_json::Value>,
    pub method: M,
}

impl<M> NotificationBuilder<M> {
    /// Set the notification parameters.
    pub fn with_params(self, params: serde_json::Value) -> (r: Self)
        ensures
            r.params == Some(params),
            r.method == self.method,
    {
        NotificationBuilder { params: Some(params), method: self.method }
    }
}

impl NotificationBuilder<()> {
    /// Set the method name.
    pub fn with_method(self, method: String) -> (r: NotificationBuilder<String>)
        ensures
            r.params == self.params,
            r.method == method,
    {
        NotificationBuilder { params: self.params, method }
    }
}

impl NotificationBuilder<String> {
    /// Build the notification; its id field is absent.
    pub fn finish(self) -> (r: RequestObject)
        ensures
            r@.method == self.method@,
            r@.params == (match self.params {
                Some(v) => Some(json_model(v)),
                None => None::<JsonShape>,
            }),
            r@.id is None,
    {
        RequestObject { method: self.method, params: self.params, id: None }
    }
}

impl Default for NotificationBuilder<()> {
    /// An empty builder: no params.
    fn default() -> (r: Self)
        ensures
            r.params is None,
    {
        NotificationBuilder { params: None, method: () }
    }
}

} // verus!
