//! The dispatch engine: the server, its builder, and the protocol-shape
//! logic turning envelopes, batches, or raw bytes into responses.

use vstd::prelude::*;

use crate::error::{
    invalid_params_view, invalid_request_view, method_not_found_view, parse_error_view, Error,
    ErrorView,
};
use crate::handler::Handler;
use crate::json::{json_model, json_of, parse_json, value_array_elems, value_is_array, JsonShape};
use crate::middleware::{run_chain, run_chain_spec, Middleware};
use crate::request::{
    decode_envelope, envelope_of_shape, resolved_id, suppresses_reply, KindView, ReqView,
    RequestKind, RequestObject,
};
use crate::response::{
    ManyResponseObjects, RespView, RespsView, ResponseObject, ResponseObjects,
    SingleResponseObject,
};
use crate::router::{MapRouter, Route};
use crate::{Dup, Id, IdView};

verus! {

/// Per-call context ("metadata") handed by the transport to the engine:
/// every handler and middleware of a call sees it, and every member of a
/// batch gets an identical duplicate; the engine never mutates it.
pub trait Metadata: Dup {

}

impl Metadata for () {

}

/// Server/request handler.
pub struct Server<H, MW> {
    router: MapRouter<H, MW>,
}

/// Builder used to add methods to a server.
///
/// Created with `Server::new` or `Server::with_router`.
pub struct ServerBuilder<H, MW> {
    router: MapRouter<H, MW>,
    middlewares: Vec<MW>,
}

impl<H, MW> Server<H, MW> {
    /// Well-formedness: the registry holds each method name once.
    pub closed spec fn wf(&self) -> bool {
        self.router.wf()
    }

    /// The mapping from method names to routes the server dispatches by.
    pub closed spec fn routes(&self) -> Map<Seq<char>, Route<H, MW>> {
        self.router.route_map()
    }

    /// Start building a server with the given global middlewares.
    pub fn new(middlewares: Vec<MW>) -> (r: ServerBuilder<H, MW>)
        ensures
            r.wf(),
            r.routes() == Map::<Seq<char>, Route<H, MW>>::empty(),
            r.globals() == middlewares@,
    {
        Self::with_router(MapRouter::new(), middlewares)
    }

    /// Start building a server from an existing registry.
    pub fn with_router(router: MapRouter<H, MW>, middlewares: Vec<MW>) -> (r: ServerBuilder<
        H,
        MW,
    >)
        requires
            router.wf(),
        ensures
            r.wf(),
            r.routes() == router.route_map(),
            r.globals() == middlewares@,
    {
        ServerBuilder { router, middlewares }
    }
}

impl<H, MW> ServerBuilder<H, MW> {
    /// Well-formedness: the registry holds each method name once.
    pub closed spec fn wf(&self) -> bool {
        self.router.wf()
    }

    /// The routes registered so far.
    pub closed spec fn routes(&self) -> Map<Seq<char>, Route<H, MW>> {
        self.router.route_map()
    }

    /// The global middlewares, prepended to every route's own list.
    pub closed spec fn globals(&self) -> Seq<MW> {
        self.middlewares@
    }
}

impl<H, MW: Dup> ServerBuilder<H, MW> {
    /// Add a method handler to the server.
    pub fn with_method(self, name: String, handler: H) -> (r: Self)
        requires
            self.wf(),
        ensures
            r.wf(),
            r.globals() == self.globals(),
            r.routes().dom() == self.routes().dom().insert(name@),
            r.routes()[name@].handler == handler,
            r.routes()[name@].middlewares@ == self.globals(),
            forall|k: Seq<char>| #![auto]
                k != name@ && self.routes().contains_key(k) ==> r.routes()[k] == self.routes()[k],
    {
        self.with_method_middleware(name, handler, Vec::new())
    }

    /// Add a method handler together with middlewares of its own; the
    /// global middlewares are prepended to them, so globals run outermost.
    /// A route already registered under the same name is overwritten.
    #[verifier::loop_isolation(false)]
    pub fn with_method_middleware(self, name: String, handler: H, middlewares: Vec<MW>) -> (r:
        Self)
        requires
            self.wf(),
        ensures
            r.wf(),
            r.globals() == self.globals(),
            r.routes().dom() == self.routes().dom().insert(name@),
            r.routes()[name@].handler == handler,
            r.routes()[name@].middlewares@ == self.globals() + middlewares@,
            forall|k: Seq<char>| #![auto]
                k != name@ && self.routes().contains_key(k) ==> r.routes()[k] == self.routes()[k],
    {
        let ServerBuilder { mut router, middlewares: globals } = self;
        let mut chain: Vec<MW> = Vec::new();
        let mut i: usize = 0;
        while i < globals.len()
            invariant
                i <= globals.len(),
                chain@ == globals@.subrange(0, i as int),
            decreases globals.len() - i,
        {
            chain.push(globals[i].dup());
            proof {
                assert(chain@ =~= globals@.subrange(0, i as int + 1));
            }
            i = i + 1;
        }
        proof {
            assert(globals@.subrange(0, globals@.len() as int) =~= globals@);
        }
        let mut own = middlewares;
        chain.append(&mut own);
        let route = Route { handler, middlewares: chain };
        router.insert(name, route);
        let r = ServerBuilder { router, middlewares: globals };
        proof {
            assert(r.routes().dom() =~= self.routes().dom().insert(name@));
        }
        r
    }

    /// Finish the builder, wrapping the server in an `Arc`.
    pub fn finish(self) -> (r: std::sync::Arc<Server<H, MW>>)
        requires
            self.wf(),
        ensures
            (*r).wf(),
            (*r).routes() == self.routes(),
    {
        std::sync::Arc::new(self.finish_unwrapped())
    }

    /// Finish the builder.
    pub fn finish_unwrapped(self) -> (r: Server<H, MW>)
        requires
            self.wf(),
        ensures
            r.wf(),
            r.routes() == self.routes(),
    {
        let ServerBuilder { router, middlewares: _ } = self;
        Server { router }
    }
}

/// What dispatching a single envelope produces: `None` when the reply is
/// suppressed (the resolved identifier is null), otherwise exactly one
/// response, correlated by the resolved identifier: the Method not found
/// error for an unregistered name, and otherwise the outcome of the
/// route's middleware chain run to completion into its handler.
pub open spec fn dispatch_single_spec<M, H: Handler<M>, MW: Middleware<M>>(
    routes: Map<Seq<char>, Route<H, MW>>,
    req: ReqView,
    meta: M,
) -> Option<RespView> {
    let rid = resolved_id(req.id);
    if routes.contains_key(req.method) {
        let route = routes[req.method];
        match run_chain_spec(route.middlewares@, route.handler, req, meta) {
            Ok(payload) => if rid is Null {
                None
            } else {
                Some(RespView::Success { result: payload, id: rid })
            },
            Err(e) => if rid is Null {
                None
            } else {
                Some(RespView::Failure { error: e, id: rid })
            },
        }
    } else {
        if rid is Null {
            None
        } else {
            Some(RespView::Failure { error: method_not_found_view(), id: rid })
        }
    }
}

impl<H, MW> Server<H, MW> {
    /// Dispatch a single envelope: look its method up, run the route's
    /// middleware chain into the handler, and shape the outcome into at
    /// most one response, honoring notification suppression.
    pub fn handle_request_object<M: Metadata>(&self, req: RequestObject, meta: M) -> (r:
        SingleResponseObject) where H: Handler<M>, MW: Middleware<M>
        requires
            self.wf(),
        ensures
            r@ == dispatch_single_spec(self.routes(), req@, meta),
    {
        let opt_id: Id = match &req.id {
            Some(Some(id)) => id.dup(),
            _ => Id::Null,
        };
        match self.router.get(req.method.as_str()) {
            Some(route) => {
                let out = run_chain(&route.middlewares, &route.handler, req, meta);
                match out {
                    Ok(val) => SingleResponseObject::result(val, opt_id),
                    Err(e) => SingleResponseObject::error(e, opt_id),
                }
            },
            None => SingleResponseObject::error(Error::method_not_found(), opt_id),
        }
    }

    /// Dispatch a batch of envelopes: each independently, with an
    /// identical duplicate of the context; the produced responses are
    /// collected in input order, suppressed replies dropped, and `Empty`
    /// signals that no response body is to be written at all.
    #[verifier::loop_isolation(false)]
    pub fn handle_many_request_objects<M: Metadata>(&self, reqs: Vec<RequestObject>, meta: M) -> (r:
        ManyResponseObjects) where H: Handler<M>, MW: Middleware<M>
        requires
            self.wf(),
        ensures
            ({
                let produced = dispatch_batch_spec(
                    self.routes(),
                    reqs@.map_values(|q: RequestObject| q@),
                    meta,
                );
                r@ == (if produced.len() == 0 {
                    None::<Seq<RespView>>
                } else {
                    Some(produced)
                })
            }),
    {
        let ghost all = reqs@.map_values(|q: RequestObject| q@);
        let mut remaining = reqs;
        let mut acc: Vec<ResponseObject> = Vec::new();
        proof {
            assert(acc@.map_values(|p: ResponseObject| p@) =~= Seq::<RespView>::empty());
        }
        while remaining.len() > 0
            invariant
                dispatch_batch_spec(self.routes(), all, meta) == acc@.map_values(
                    |p: ResponseObject| p@,
                ) + dispatch_batch_spec(
                    self.routes(),
                    remaining@.map_values(|q: RequestObject| q@),
                    meta,
                ),
            decreases remaining.len(),
        {
            let ghost rem_views = remaining@.map_values(|q: RequestObject| q@);
            let req = remaining.remove(0);
            proof {
                assert(remaining@.map_values(|q: RequestObject| q@) =~= rem_views.skip(1));
            }
            let resp = self.handle_request_object(req, meta.dup());
            let ghost acc_views = acc@.map_values(|p: ResponseObject| p@);
            match resp {
                SingleResponseObject::One(one) => {
                    acc.push(one);
                    proof {
                        assert(acc@.map_values(|p: ResponseObject| p@) =~= acc_views.push(one@));
                        assert(acc_views.push(one@) + dispatch_batch_spec(
                            self.routes(),
                            rem_views.skip(1),
                            meta,
                        ) =~= acc_views + (seq![one@] + dispatch_batch_spec(
                            self.routes(),
                            rem_views.skip(1),
                            meta,
                        )));
                    }
                },
                SingleResponseObject::Empty => {
                },
            }
        }
        proof {
            assert(remaining@.map_values(|q: RequestObject| q@) =~= Seq::<ReqView>::empty());
            assert(acc@.map_values(|p: ResponseObject| p@) + Seq::<RespView>::empty() =~= acc@.map_values(
                |p: ResponseObject| p@,
            ));
        }
        if acc.len() == 0 {
            proof {
                assert(acc@.map_values(|p: ResponseObject| p@) =~= Seq::<RespView>::empty());
            }
            ManyResponseObjects::Empty
        } else {
            ManyResponseObjects::Many(acc)
        }
    }

    /// Dispatch raw bytes: parse them, then follow the single or batch
    /// path; malformed bytes short-circuit with the top-level Parse error.
    #[verifier::loop_isolation(false)]
    pub fn handle_bytes<M: Metadata>(&self, bytes: &[u8], meta: M) -> (r: ResponseObjects) where
        H: Handler<M>,
        MW: Middleware<M>,

        requires
            self.wf(),
        ensures
            r@ == dispatch_bytes_spec(self.routes(), bytes@, meta),
    {
        let parsed = match parse_json(bytes) {
            Ok(v) => v,
            Err(_) => {
                return ResponseObjects::One(ResponseObject::error(Error::parse_error(), Id::Null));
            },
        };
        if value_is_array(&parsed) {
            let elems = match value_array_elems(&parsed) {
                Some(e) => e,
                None => {
                    proof {
                        assert(false);
                    }
                    return ResponseObjects::Empty;
                },
            };
            if elems.len() == 0 {
                proof {
                    assert(elems@.map_values(|e: serde_json::Value| json_model(e))
                        =~= Seq::<JsonShape>::empty());
                }
                return ResponseObjects::One(
                    ResponseObject::error(Error::invalid_request(), Id::Null),
                );
            }
            let ghost items = elems@.map_values(|e: serde_json::Value| json_model(e));
            let mut okays: Vec<RequestObject> = Vec::new();
            let mut err_count: usize = 0;
            let mut i: usize = 0;
            proof {
                assert(okays@.map_values(|q: RequestObject| q@) =~= Seq::<ReqView>::empty());
                assert(items.subrange(0, 0) =~= Seq::<JsonShape>::empty());
            }
            while i < elems.len()
                invariant
                    i <= elems.len(),
                    err_count <= i,
                    okays@.map_values(|q: RequestObject| q@) == batch_valid_reqs(
                        items.subrange(0, i as int),
                    ),
                    err_count as nat == batch_invalid_count(items.subrange(0, i as int)),
                decreases elems.len() - i,
            {
                proof {
                    assert(items.subrange(0, i as int + 1).drop_last() =~= items.subrange(
                        0,
                        i as int,
                    ));
                    assert(items.subrange(0, i as int + 1).last() == items[i as int]);
                }
                let ghost okay_views = okays@.map_values(|q: RequestObject| q@);
                match decode_envelope(&elems[i]) {
                    Ok(req) => {
                        okays.push(req);
                        proof {
                            assert(okays@.map_values(|q: RequestObject| q@) =~= okay_views.push(
                                req@,
                            ));
                            assert(okay_views.push(req@) =~= okay_views + seq![req@]);
                        }
                    },
                    Err(_) => {
                        err_count = err_count + 1;
                    },
                }
                i = i + 1;
            }
            proof {
                assert(items.subrange(0, elems@.len() as int) =~= items);
            }
            let many = self.handle_many_request_objects(okays, meta);
            match many {
                ManyResponseObjects::Many(mut vec) => {
                    push_invalid_entries(&mut vec, err_count);
                    ResponseObjects::Many(vec)
                },
                ManyResponseObjects::Empty => {
                    if err_count == 0 {
                        ResponseObjects::Empty
                    } else {
                        let mut vec: Vec<ResponseObject> = Vec::new();
                        push_invalid_entries(&mut vec, err_count);
                        proof {
                            assert(Seq::<RespView>::empty() + Seq::new(
                                err_count as nat,
                                |j: int| invalid_entry_view(),
                            ) =~= Seq::new(err_count as nat, |j: int| invalid_entry_view()));
                            assert(dispatch_batch_spec(
                                self.routes(),
                                batch_valid_reqs(items),
                                meta,
                            ) + Seq::new(err_count as nat, |j: int| invalid_entry_view())
                                =~= Seq::new(err_count as nat, |j: int| invalid_entry_view()));
                        }
                        ResponseObjects::Many(vec)
                    }
                },
            }
        } else {
            match decode_envelope(&parsed) {
                Ok(req) => match self.handle_request_object(req, meta) {
                    SingleResponseObject::One(resp) => ResponseObjects::One(resp),
                    SingleResponseObject::Empty => ResponseObjects::Empty,
                },
                Err(_) => ResponseObjects::One(
                    ResponseObject::error(Error::invalid_request(), Id::Null),
                ),
            }
        }
    }

    /// Handle a request of any kind, and return the appropriate
    /// responses.
    pub fn handle<M: Metadata>(&self, req: RequestKind, meta: M) -> (r: ResponseObjects) where
        H: Handler<M>,
        MW: Middleware<M>,

        requires
            self.wf(),
        ensures
            r@ == dispatch_kind_spec(self.routes(), req@, meta),
    {
        match req {
            RequestKind::Bytes(bytes) => self.handle_bytes(bytes.as_slice(), meta),
            RequestKind::RequestObject(one) => ResponseObjects::from(
                self.handle_request_object(one, meta),
            ),
            RequestKind::ManyRequestObjects(reqs) => ResponseObjects::from(
                self.handle_many_request_objects(reqs, meta),
            ),
        }
    }
}

/// The responses a batch of envelopes produces: each envelope dispatched
/// independently with the same context, the produced responses collected
/// in input order, suppressed replies dropped.
pub open spec fn dispatch_batch_spec<M, H: Handler<M>, MW: Middleware<M>>(
    routes: Map<Seq<char>, Route<H, MW>>,
    reqs: Seq<ReqView>,
    meta: M,
) -> Seq<RespView>
    decreases reqs.len(),
{
    if reqs.len() == 0 {
        Seq::empty()
    } else {
        match dispatch_single_spec(routes, reqs[0], meta) {
            Some(r) => seq![r] + dispatch_batch_spec(routes, reqs.skip(1), meta),
            None => dispatch_batch_spec(routes, reqs.skip(1), meta),
        }
    }
}

/// The envelopes among a batch's elements that decode, in input order.
pub open spec fn batch_valid_reqs(items: Seq<JsonShape>) -> Seq<ReqView>
    decreases items.len(),
{
    if items.len() == 0 {
        Seq::empty()
    } else {
        batch_valid_reqs(items.drop_last()) + (match envelope_of_shape(items.last()) {
            Some(req) => seq![req],
            None => Seq::empty(),
        })
    }
}

/// How many of a batch's elements do not decode into an envelope.
pub open spec fn batch_invalid_count(items: Seq<JsonShape>) -> nat
    decreases items.len(),
{
    if items.len() == 0 {
        0
    } else {
        batch_invalid_count(items.drop_last()) + (if envelope_of_shape(items.last()) is None {
            1nat
        } else {
            0
        })
    }
}

/// The response entry a malformed batch element contributes: the Invalid
/// Request error with a null id.
pub open spec fn invalid_entry_view() -> RespView {
    RespView::Failure { error: invalid_request_view(), id: IdView::Null }
}

/// What dispatching raw bytes produces. Malformed bytes give the single
/// top-level Parse error. An empty batch array gives the single top-level
/// Invalid Request error. A non-empty batch gives the responses of its
/// decodable elements followed by one Invalid Request entry (null id) per
/// malformed element, or no body when nothing was produced. A single
/// document gives its envelope's response, the Invalid Request error when
/// it is not a well-formed envelope, or no body for a suppressed reply.
pub open spec fn dispatch_bytes_spec<M, H: Handler<M>, MW: Middleware<M>>(
    routes: Map<Seq<char>, Route<H, MW>>,
    bytes: Seq<u8>,
    meta: M,
) -> RespsView {
    match json_of(bytes) {
        Option::None => RespsView::One(
            RespView::Failure { error: parse_error_view(), id: IdView::Null },
        ),
        Option::Some(shape) => match shape {
            JsonShape::Arr(items) => if items.len() == 0 {
                RespsView::One(
                    RespView::Failure { error: invalid_request_view(), id: IdView::Null },
                )
            } else {
                let produced = dispatch_batch_spec(routes, batch_valid_reqs(items), meta);
                let errs = batch_invalid_count(items);
                if produced.len() == 0 && errs == 0 {
                    RespsView::Empty
                } else {
                    RespsView::Many(produced + Seq::new(errs, |j: int| invalid_entry_view()))
                }
            },
            _ => match envelope_of_shape(shape) {
                Some(req) => match dispatch_single_spec(routes, req, meta) {
                    Some(r) => RespsView::One(r),
                    None => RespsView::Empty,
                },
                None => RespsView::One(
                    RespView::Failure { error: invalid_request_view(), id: IdView::Null },
                ),
            },
        },
    }
}

/// What handling a request of any kind produces.
pub open spec fn dispatch_kind_spec<M, H: Handler<M>, MW: Middleware<M>>(
    routes: Map<Seq<char>, Route<H, MW>>,
    kind: KindView,
    meta: M,
) -> RespsView {
    match kind {
        KindView::One(req) => match dispatch_single_spec(routes, req, meta) {
            Some(r) => RespsView::One(r),
            None => RespsView::Empty,
        },
        KindView::Many(reqs) => {
            let produced = dispatch_batch_spec(routes, reqs, meta);
            if produced.len() == 0 {
                RespsView::Empty
            } else {
                RespsView::Many(produced)
            }
        },
        KindView::Bytes(bytes) => dispatch_bytes_spec(routes, bytes, meta),
    }
}

/// Append `count` Invalid Request entries (null id) to a response list.
#[verifier::loop_isolation(false)]
fn push_invalid_entries(vec: &mut Vec<ResponseObject>, count: usize)
    ensures
        final(vec)@.map_values(|p: ResponseObject| p@) == old(vec)@.map_values(
            |p: ResponseObject| p@,
        ) + Seq::new(count as nat, |j: int| invalid_entry_view()),
{
    let ghost base = vec@.map_values(|p: ResponseObject| p@);
    let mut j: usize = 0;
    proof {
        assert(base + Seq::new(0, |k: int| invalid_entry_view()) =~= base);
    }
    while j < count
        invariant
            j <= count,
            vec@.map_values(|p: ResponseObject| p@) == base + Seq::new(
                j as nat,
                |k: int| invalid_entry_view(),
            ),
        decreases count - j,
    {
        let ghost cur = vec@.map_values(|p: ResponseObject| p@);
        vec.push(ResponseObject::error(Error::invalid_request(), Id::Null));
        proof {
            assert(vec@.map_values(|p: ResponseObject| p@) =~= cur.push(invalid_entry_view()));
            assert(cur.push(invalid_entry_view()) =~= base + Seq::new(
                j as nat + 1,
                |k: int| invalid_entry_view(),
            ));
        }
        j = j + 1;
    }
}

/// Law: a valid single request with a concrete identifier gets exactly
/// one response, success or error, correlated by that identifier.
pub proof fn lemma_concrete_id_one_response<M, H: Handler<M>, MW: Middleware<M>>(
    routes: Map<Seq<char>, Route<H, MW>>,
    req: ReqView,
    meta: M,
    i: IdView,
)
    requires
        req.id == Some(Some(i)),
        !(i is Null),
    ensures
        match dispatch_single_spec(routes, req, meta) {
            Some(RespView::Success { id, .. }) => id == i,
            Some(RespView::Failure { id, .. }) => id == i,
            None => false,
        },
{
}

/// Law: a request whose id field is absent is a notification: no
/// response body is produced, whatever the handler did.
pub proof fn lemma_absent_id_suppressed<M, H: Handler<M>, MW: Middleware<M>>(
    routes: Map<Seq<char>, Route<H, MW>>,
    req: ReqView,
    meta: M,
)
    requires
        req.id is None,
    ensures
        dispatch_single_spec(routes, req, meta) is None,
{
}

/// Law: a request whose id field is present and null produces no
/// response body either, the engine's documented deviation from a
/// stricter reading of the protocol.
pub proof fn lemma_null_id_suppressed<M, H: Handler<M>, MW: Middleware<M>>(
    routes: Map<Seq<char>, Route<H, MW>>,
    req: ReqView,
    meta: M,
)
    requires
        req.id == Some(None::<IdView>) || req.id == Some(Some(IdView::Null)),
    ensures
        dispatch_single_spec(routes, req, meta) is None,
{
}

/// Law: an empty batch array produces exactly one top-level Invalid
/// Request error, not an empty list.
pub proof fn lemma_empty_batch_invalid<M, H: Handler<M>, MW: Middleware<M>>(
    routes: Map<Seq<char>, Route<H, MW>>,
    bytes: Seq<u8>,
    meta: M,
)
    requires
        json_of(bytes) == Some(JsonShape::Arr(Seq::<JsonShape>::empty())),
    ensures
        dispatch_bytes_spec(routes, bytes, meta) == RespsView::One(
            RespView::Failure { error: invalid_request_view(), id: IdView::Null },
        ),
{
}

/// How many envelopes of a batch expect a reply: those that are not
/// notifications.
pub open spec fn non_notification_count(reqs: Seq<ReqView>) -> nat
    decreases reqs.len(),
{
    if reqs.len() == 0 {
        0
    } else {
        (if suppresses_reply(reqs[0].id) {
            0nat
        } else {
            1nat
        }) + non_notification_count(reqs.skip(1))
    }
}

/// A batch of envelopes produces exactly one response per envelope that
/// expects a reply.
pub proof fn lemma_batch_response_count<M, H: Handler<M>, MW: Middleware<M>>(
    routes: Map<Seq<char>, Route<H, MW>>,
    reqs: Seq<ReqView>,
    meta: M,
)
    ensures
        dispatch_batch_spec(routes, reqs, meta).len() == non_notification_count(reqs),
    decreases reqs.len(),
{
    if reqs.len() == 0 {
    } else {
        lemma_batch_response_count(routes, reqs.skip(1), meta);
    }
}

/// Law: a batch in which some elements are well-formed envelopes and the
/// others are malformed produces one entry per well-formed envelope that
/// expects a reply plus one Invalid Request entry per malformed element;
/// a single top-level error never stands for a non-empty batch.
pub proof fn lemma_batch_partial_failure<M, H: Handler<M>, MW: Middleware<M>>(
    routes: Map<Seq<char>, Route<H, MW>>,
    bytes: Seq<u8>,
    items: Seq<JsonShape>,
    meta: M,
)
    requires
        json_of(bytes) == Some(JsonShape::Arr(items)),
        items.len() > 0,
    ensures
        ({
            let total = non_notification_count(batch_valid_reqs(items)) + batch_invalid_count(
                items,
            );
            match dispatch_bytes_spec(routes, bytes, meta) {
                RespsView::Many(rs) => rs.len() == total,
                RespsView::Empty => total == 0,
                RespsView::One(_) => false,
            }
        }),
{
    lemma_batch_response_count(routes, batch_valid_reqs(items), meta);
}

/// Law: dispatching to an unregistered method name yields the Method not
/// found error, code -32601, correlated to the request's identifier.
pub proof fn lemma_method_not_found<M, H: Handler<M>, MW: Middleware<M>>(
    routes: Map<Seq<char>, Route<H, MW>>,
    req: ReqView,
    meta: M,
    i: IdView,
)
    requires
        !routes.contains_key(req.method),
        req.id == Some(Some(i)),
        !(i is Null),
    ensures
        dispatch_single_spec(routes, req, meta) == Some(
            RespView::Failure { error: method_not_found_view(), id: i },
        ),
        method_not_found_view().code == -32601,
        method_not_found_view().message == "Method not found"@,
{
}

/// Law: when the chain of a registered method ends in the Invalid params
/// error — as a handler whose parameter extraction fails reports — the
/// caller sees exactly that error, code -32602, under its identifier.
pub proof fn lemma_invalid_params_reported<M, H: Handler<M>, MW: Middleware<M>>(
    routes: Map<Seq<char>, Route<H, MW>>,
    req: ReqView,
    meta: M,
    i: IdView,
)
    requires
        routes.contains_key(req.method),
        run_chain_spec(
            routes[req.method].middlewares@,
            routes[req.method].handler,
            req,
            meta,
        ) == Err::<JsonShape, ErrorView>(invalid_params_view()),
        req.id == Some(Some(i)),
        !(i is Null),
    ensures
        dispatch_single_spec(routes, req, meta) == Some(
            RespView::Failure { error: invalid_params_view(), id: i },
        ),
        invalid_params_view().code == -32602,
{
}

} // verus!
