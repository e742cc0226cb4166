//! The middleware chain: ordered interceptors that transform a call on
//! its way to the terminal handler, able to short-circuit it with an
//! error, together with the laws of their ordering.

use vstd::prelude::*;
use vstd::string::StringExecFns;

use crate::error::{Error, ErrorView};
use crate::handler::Handler;
use crate::json::{json_model, JsonShape};
use crate::request::{ReqView, RequestObject};
use crate::Dup;

verus! {

/// A single middleware step: it inspects and transforms the envelope and
/// context, or fails the chain early with a protocol error.
///
/// `handle_spec` is the step's own statement of what it does; `handle`
/// must do exactly that.
pub trait Middleware<M>: Sized {
    /// What the step turns the envelope and context into, or the error it
    /// short-circuits with.
    spec fn handle_spec(&self, req: ReqView, meta: M) -> Result<(ReqView, M), ErrorView>;

    /// Run the step.
    fn handle(&self, req: RequestObject, meta: M) -> (r: Result<(RequestObject, M), Error>)
        ensures
            match r {
                Ok(qm) => self.handle_spec(req@, meta) == Ok::<(ReqView, M), ErrorView>(
                    (qm.0@, qm.1),
                ),
                Err(e) => self.handle_spec(req@, meta) == Err::<(ReqView, M), ErrorView>(e@),
            },
    ;
}

/// What a chain of middleware steps ending in a handler produces: the
/// steps run in order, each handing its transformed envelope and context
/// to the next; a failing step ends the chain with its error, and the
/// handler sees only what the last step handed on.
pub open spec fn run_chain_spec<M, MW: Middleware<M>, H: Handler<M>>(
    mws: Seq<MW>,
    handler: H,
    req: ReqView,
    meta: M,
) -> Result<JsonShape, ErrorView>
    decreases mws.len(),
{
    if mws.len() == 0 {
        handler.call_spec(req, meta)
    } else {
        match mws[0].handle_spec(req, meta) {
            Ok(qm) => run_chain_spec(mws.skip(1), handler, qm.0, qm.1),
            Err(e) => Err(e),
        }
    }
}

/// Run the middleware chain to completion: every step in order, then the
/// terminal handler, stopping at the first failing step.
#[verifier::loop_isolation(false)]
pub fn run_chain<M, MW: Middleware<M>, H: Handler<M>>(
    mws: &Vec<MW>,
    handler: &H,
    req: RequestObject,
    meta: M,
) -> (r: Result<serde_json::Value, Error>)
    ensures
        match r {
            Ok(v) => run_chain_spec(mws@, *handler, req@, meta) == Ok::<JsonShape, ErrorView>(
                json_model(v),
            ),
            Err(e) => run_chain_spec(mws@, *handler, req@, meta) == Err::<JsonShape, ErrorView>(
                e@,
            ),
        },
{
    let ghost orig_req = req@;
    let ghost orig_meta = meta;
    let mut cur_req = req;
    let mut cur_meta = meta;
    let mut i: usize = 0;
    proof {
        assert(mws@.skip(0) =~= mws@);
    }
    while i < mws.len()
        invariant
            i <= mws.len(),
            run_chain_spec(mws@, *handler, orig_req, orig_meta) == run_chain_spec(
                mws@.skip(i as int),
                *handler,
                cur_req@,
                cur_meta,
            ),
        decreases mws.len() - i,
    {
        proof {
            assert(mws@.skip(i as int)[0] == mws@[i as int]);
            assert(mws@.skip(i as int).skip(1) =~= mws@.skip(i as int + 1));
        }
        let ghost pre_req = cur_req@;
        let ghost pre_meta = cur_meta;
        match mws[i].handle(cur_req, cur_meta) {
            Ok(qm) => {
                proof {
                    assert(run_chain_spec(mws@.skip(i as int), *handler, pre_req, pre_meta)
                        == run_chain_spec(mws@.skip(i as int + 1), *handler, qm.0@, qm.1));
                }
                cur_req = qm.0;
                cur_meta = qm.1;
            },
            Err(e) => {
                proof {
                    assert(run_chain_spec(mws@.skip(i as int), *handler, pre_req, pre_meta)
                        == Err::<JsonShape, ErrorView>(e@));
                }
                return Err(e);
            },
        }
        i = i + 1;
    }
    proof {
        assert(mws@.skip(i as int) =~= Seq::<MW>::empty());
    }
    handler.call(cur_req, cur_meta)
}

/// Ordering law: with middlewares `[a, b, c]` attached in that order, `a`
/// sees the inbound envelope first, hands on to `b`, then `c`, and the
/// handler runs on what `c` handed on.
pub proof fn lemma_middleware_ordering<M, MW: Middleware<M>, H: Handler<M>>(
    a: MW,
    b: MW,
    c: MW,
    handler: H,
    req: ReqView,
    meta: M,
    req1: ReqView,
    meta1: M,
    req2: ReqView,
    meta2: M,
    req3: ReqView,
    meta3: M,
)
    requires
        a.handle_spec(req, meta) == Ok::<(ReqView, M), ErrorView>((req1, meta1)),
        b.handle_spec(req1, meta1) == Ok::<(ReqView, M), ErrorView>((req2, meta2)),
        c.handle_spec(req2, meta2) == Ok::<(ReqView, M), ErrorView>((req3, meta3)),
    ensures
        run_chain_spec(seq![a, b, c], handler, req, meta) == handler.call_spec(req3, meta3),
{
    assert(seq![a, b, c].skip(1) =~= seq![b, c]);
    assert(seq![b, c].skip(1) =~= seq![c]);
    assert(seq![c].skip(1) =~= Seq::<MW>::empty());
    assert(run_chain_spec(seq![a, b, c], handler, req, meta) == run_chain_spec(
        seq![b, c],
        handler,
        req1,
        meta1,
    ));
    assert(run_chain_spec(seq![b, c], handler, req1, meta1) == run_chain_spec(
        seq![c],
        handler,
        req2,
        meta2,
    ));
    assert(run_chain_spec(seq![c], handler, req2, meta2) == run_chain_spec(
        Seq::<MW>::empty(),
        handler,
        req3,
        meta3,
    ));
}

/// Short-circuit law: a middleware that fails ends the chain with its
/// error; the middlewares after it and the handler contribute nothing to
/// the outcome, whatever they are.
pub proof fn lemma_middleware_short_circuit<M, MW: Middleware<M>, H: Handler<M>>(
    a: MW,
    b: MW,
    rest: Seq<MW>,
    handler: H,
    req: ReqView,
    meta: M,
    req1: ReqView,
    meta1: M,
    e: ErrorView,
)
    requires
        a.handle_spec(req, meta) == Ok::<(ReqView, M), ErrorView>((req1, meta1)),
        b.handle_spec(req1, meta1) == Err::<(ReqView, M), ErrorView>(e),
    ensures
        run_chain_spec(seq![a, b] + rest, handler, req, meta) == Err::<JsonShape, ErrorView>(e),
{
    assert((seq![a, b] + rest)[0] == a);
    assert((seq![a, b] + rest).skip(1) =~= seq![b] + rest);
    assert((seq![b] + rest)[0] == b);
    assert(run_chain_spec(seq![a, b] + rest, handler, req, meta) == run_chain_spec(
        seq![b] + rest,
        handler,
        req1,
        meta1,
    ));
    assert(run_chain_spec(seq![b] + rest, handler, req1, meta1) == Err::<JsonShape, ErrorView>(e));
}

/// A middleware that tags the envelope: it appends its suffix to the
/// method name and delegates onward, which makes the order in which a
/// chain ran observable in the handler's input.
pub struct MethodSuffixMiddleware {
    pub suffix: String,
}

impl<M> Middleware<M> for MethodSuffixMiddleware {
    open spec fn handle_spec(&self, req: ReqView, meta: M) -> Result<(ReqView, M), ErrorView> {
        Ok((ReqView { method: req.method + self.suffix@, ..req }, meta))
    }

    fn handle(&self, req: RequestObject, meta: M) -> (r: Result<(RequestObject, M), Error>) {
        let RequestObject { method, params, id } = req;
        let tagged = method.concat(self.suffix.as_str());
        Ok((RequestObject { method: tagged, params, id }, meta))
    }
}

impl Dup for MethodSuffixMiddleware {
    fn dup(&self) -> (r: Self) {
        MethodSuffixMiddleware { suffix: self.suffix.clone() }
    }
}

/// A middleware that short-circuits every call with a fixed error:
/// nothing after it in the chain runs.
pub struct RejectMiddleware {
    pub code: i64,
    pub message: String,
}

impl<M> Middleware<M> for RejectMiddleware {
    open spec fn handle_spec(&self, req: ReqView, meta: M) -> Result<(ReqView, M), ErrorView> {
        Err(ErrorView { code: self.code as int, message: self.message@, data: None })
    }

    fn handle(&self, req: RequestObject, meta: M) -> (r: Result<(RequestObject, M), Error>) {
        Err(Error::Provided { code: self.code, message: self.message.clone() })
    }
}

impl Dup for RejectMiddleware {
    fn dup(&self) -> (r: Self) {
        RejectMiddleware { code: self.code, message: self.message.clone() }
    }
}

/// A middleware that intercepts nothing: every call passes through
/// unchanged.
pub struct LoggerMiddleware {}

impl<M> Middleware<M> for LoggerMiddleware {
    open spec fn handle_spec(&self, req: ReqView, meta: M) -> Result<(ReqView, M), ErrorView> {
        Ok((req, meta))
    }

    fn handle(&self, req: RequestObject, meta: M) -> (r: Result<(RequestObject, M), Error>) {
        Ok((req, meta))
    }
}

impl Dup for LoggerMiddleware {
    fn dup(&self) -> (r: Self) {
        LoggerMiddleware {  }
    }
}

} // verus!
