//! Cross-origin handling wrapped around a whole route: requests without an
//! origin pass through untouched, preflight requests are answered without
//! consulting the route, and everything else is marked for the allow-origin
//! header.

use vstd::prelude::*;
use vstd::string::StringExecFns;

use crate::endpoint::{apply_s, eresolve, Context, Endpoint, MatchOutcome, SOut};
use crate::error::{ErrV, HttpError};
use crate::generic::{outs, Value, VV};
use crate::lookup::assoc_lookup;
use crate::output::{respond, respond_s, OutputContext, RespV, Response};
use crate::request::Method;
use crate::task::{
    fatal_poll_twice, lookup_header, presolve, AsyncInput, PollOutcome, Producer, AV, PR,
};

verus! {

/// Creates the cross-origin wrapper.
pub fn cors_filter() -> (r: CorsFilter)
    ensures
        r == (CorsFilter { _priv: () }),
{
    CorsFilter { _priv: () }
}

/// A wrapper that adds cross-origin handling around an endpoint.
#[derive(Debug, Clone, Copy)]
pub struct CorsFilter {
    pub _priv: (),
}

impl CorsFilter {
    /// Wraps the endpoint with cross-origin handling.
    pub fn wrap(self, endpoint: Endpoint) -> (r: CorsEndpoint)
        ensures
            r == (CorsEndpoint { endpoint: Box::new(endpoint) }),
    {
        CorsEndpoint { endpoint: Box::new(endpoint) }
    }
}

/// A route with cross-origin handling around it.
#[derive(Debug)]
pub struct CorsEndpoint {
    pub endpoint: Box<Endpoint>,
}

/// The wrapped outcome: the inner output untouched, the inner output to be
/// marked with the allow-origin header, or a preflight answer carrying the
/// requested method and headers.
#[derive(Debug)]
pub enum CorsResponse {
    Raw(Vec<Value>),
    Normal(Vec<Value>),
    Preflight { allow_method: String, allow_headers: Option<String> },
}

/// The deferred completion of a wrapped route: either the inner producer, or
/// the match-phase failure handed out once.
#[derive(Debug)]
pub struct CorsFuture {
    pub inner: Result<Producer, Option<HttpError>>,
}

/// The outcome of driving a wrapped route to completion.
#[derive(Debug)]
pub enum CorsPoll {
    Done(CorsResponse),
    Failed(HttpError),
    Fatal(String),
}

/// Which of the three cross-origin shapes a request falls under: no origin
/// header passes through raw; an OPTIONS request with an origin and a
/// requested method is a preflight, answered without running the route; and
/// everything else with an origin is a normal cross-origin request.
#[verifier::ext_equal]
pub ghost enum CorsKind {
    RawK,
    NormalK,
    PreflightK(Seq<char>, Option<Seq<char>>),
}

/// The cross-origin decision, a function of the request's method and headers
/// alone.
pub open spec fn cors_decide(a: AV) -> CorsKind {
    match assoc_lookup(a.headers, "origin"@) {
        None => CorsKind::RawK,
        Some(_) => if a.method == Method::Options {
            match assoc_lookup(a.headers, "access-control-request-method"@) {
                Some(m) => CorsKind::PreflightK(
                    m,
                    assoc_lookup(a.headers, "access-control-request-headers"@),
                ),
                None => CorsKind::NormalK,
            }
        } else {
            CorsKind::NormalK
        },
    }
}

impl CorsEndpoint {
    /// Applies the inner endpoint; a failure of the match phase is not
    /// surfaced yet but carried into the asynchronous phase, where the
    /// cross-origin decision may answer a preflight without it. A decline of
    /// the inner route becomes the no-route error.
    pub fn apply(&self, cx: &mut Context) -> (r: CorsFuture)
        requires
            old(cx).wf(),
        ensures
            final (cx).wf(),
            final (cx).input == old(cx).input,
            final (cx).pos >= old(cx).pos,
            match apply_s(*self.endpoint, old(cx).input@, old(cx).pos as int) {
                SOut::Matched(p) => final (cx).pos == p && (r.inner matches Ok(prod) && forall|
                    b: AV,
                |
                    #[trigger] presolve(prod, b) == eresolve(
                        *self.endpoint,
                        old(cx).input@,
                        old(cx).pos as int,
                        b,
                    )),
                SOut::Malformed(ev) => r.inner matches Err(oe) && oe matches Some(e) && e@ == ev,
                SOut::Declined => r.inner matches Err(oe) && oe matches Some(e) && e@.status
                    == 404,
            },
    {
        match self.endpoint.apply(cx) {
            MatchOutcome::Matched(p) => CorsFuture { inner: Ok(p) },
            MatchOutcome::Malformed(e) => CorsFuture { inner: Err(Some(e)) },
            MatchOutcome::Declined => CorsFuture {
                inner: Err(Some(HttpError::not_found(String::from_str("no route")))),
            },
        }
    }
}

impl CorsFuture {
    /// Drives the wrapped route once. A carried match-phase failure is handed
    /// out; otherwise the cross-origin decision either answers a preflight
    /// directly or runs the inner producer and tags its output.
    pub fn poll(self, a: &mut AsyncInput) -> (r: (CorsFuture, CorsPoll))
        ensures
            match self.inner {
                Err(oe) => final (a)@ == old(a)@ && (match oe {
                    Some(e) => r.1 matches CorsPoll::Failed(e2) && e2@ == e@,
                    None => r.1 matches CorsPoll::Fatal(m) && m@ == fatal_poll_twice(),
                }),
                Ok(p) => match cors_decide(old(a)@) {
                    CorsKind::PreflightK(m, h) => final (a)@ == old(a)@ && (r.1 matches
                        CorsPoll::Done(cr) && cr matches CorsResponse::Preflight {
                        allow_method,
                        allow_headers,
                    } && allow_method@ == m && (match (allow_headers, h) {
                        (Some(x), Some(y)) => x@ == y,
                        (None, None) => true,
                        _ => false,
                    })),
                    kind => ({
                        let pr = presolve(p, old(a)@).0;
                        &&& final (a)@ == presolve(p, old(a)@).1
                        &&& match r.1 {
                            CorsPoll::Done(cr) => match cr {
                                CorsResponse::Raw(out) => kind is RawK && pr == PR::Out(
                                    outs(out@),
                                ),
                                CorsResponse::Normal(out) => kind is NormalK && pr == PR::Out(
                                    outs(out@),
                                ),
                                CorsResponse::Preflight { .. } => false,
                            },
                            CorsPoll::Failed(e) => pr == PR::Abort(e@),
                            CorsPoll::Fatal(m) => pr == PR::Fatal(m@),
                        }
                    }),
                },
            },
    {
        let CorsFuture { inner } = self;
        match inner {
            Err(opt) => match opt {
                Some(e) => (CorsFuture { inner: Err(None) }, CorsPoll::Failed(e)),
                None => (
                    CorsFuture { inner: Err(None) },
                    CorsPoll::Fatal(String::from_str("cannot poll twice")),
                ),
            },
            Ok(p) => {
                let origin_name = String::from_str("origin");
                match lookup_header(&a.headers, &origin_name) {
                    None => {
                        let (np, out) = p.poll_step(a);
                        let wrapped = match out {
                            PollOutcome::Ready(v) => CorsPoll::Done(CorsResponse::Raw(v)),
                            PollOutcome::Abort(e) => CorsPoll::Failed(e),
                            PollOutcome::Fatal(m) => CorsPoll::Fatal(m),
                        };
                        (CorsFuture { inner: Ok(np) }, wrapped)
                    }
                    Some(_) => {
                        let is_preflight = if a.method == Method::Options {
                            let acrm_name = String::from_str("access-control-request-method");
                            lookup_header(&a.headers, &acrm_name)
                        } else {
                            None
                        };
                        match is_preflight {
                            Some(m) => {
                                let acrh_name = String::from_str(
                                    "access-control-request-headers",
                                );
                                let h = lookup_header(&a.headers, &acrh_name);
                                (
                                    CorsFuture { inner: Err(None) },
                                    CorsPoll::Done(
                                        CorsResponse::Preflight {
                                            allow_method: m,
                                            allow_headers: h,
                                        },
                                    ),
                                )
                            }
                            None => {
                                let (np, out) = p.poll_step(a);
                                let wrapped = match out {
                                    PollOutcome::Ready(v) => CorsPoll::Done(
                                        CorsResponse::Normal(v),
                                    ),
                                    PollOutcome::Abort(e) => CorsPoll::Failed(e),
                                    PollOutcome::Fatal(m) => CorsPoll::Fatal(m),
                                };
                                (CorsFuture { inner: Ok(np) }, wrapped)
                            }
                        }
                    }
                }
            }
        }
    }
}

/// The model of rendering a whole output tuple: a single-element tuple
/// delegates to its element, anything else is an unrenderable output.
pub open spec fn respond_tuple_s(vs: Seq<VV>) -> Result<RespV, ErrV> {
    if vs.len() == 1 {
        respond_s(vs[0])
    } else {
        Err(ErrV { status: 500, msg: "unrenderable output"@ })
    }
}

/// A response marked for cross-origin use: the allow-origin header is added
/// unless one is already there.
pub open spec fn with_allow_origin(r: RespV) -> RespV {
    if assoc_lookup(r.headers, "access-control-allow-origin"@) is Some {
        r
    } else {
        RespV { headers: r.headers.push(("access-control-allow-origin"@, "*"@)), ..r }
    }
}

/// Renders a whole output tuple, as [`respond_tuple_s`] says.
fn respond_tuple(mut vs: Vec<Value>, cx: &mut OutputContext) -> (r: Result<Response, HttpError>)
    ensures
        match r {
            Ok(resp) => respond_tuple_s(outs(vs@)) == Ok::<RespV, ErrV>(resp@),
            Err(e) => respond_tuple_s(outs(vs@)) == Err::<RespV, ErrV>(e@),
        },
{
    if vs.len() == 1 {
        let v = vs.remove(0);
        respond(v, cx)
    } else {
        Err(HttpError::new(500, String::from_str("unrenderable output")))
    }
}

impl CorsResponse {
    /// Builds the response for a completed cross-origin route: a raw outcome
    /// is rendered untouched; a normal cross-origin outcome is rendered and
    /// marked with the allow-origin header. Answering a preflight is the
    /// transport layer's business and is left out here.
    pub fn respond(self, cx: &mut OutputContext) -> (r: Result<Response, HttpError>)
        requires
            !(self is Preflight),
        ensures
            match self {
                CorsResponse::Raw(v) => match r {
                    Ok(resp) => respond_tuple_s(outs(v@)) == Ok::<RespV, ErrV>(resp@),
                    Err(e) => respond_tuple_s(outs(v@)) == Err::<RespV, ErrV>(e@),
                },
                CorsResponse::Normal(v) => match r {
                    Ok(resp) => respond_tuple_s(outs(v@)) matches Ok(inner) && resp@
                        == with_allow_origin(inner),
                    Err(e) => respond_tuple_s(outs(v@)) == Err::<RespV, ErrV>(e@),
                },
                CorsResponse::Preflight { .. } => false,
            },
    {
        match self {
            CorsResponse::Raw(v) => respond_tuple(v, cx),
            CorsResponse::Normal(v) => {
                let mut resp = respond_tuple(v, cx)?;
                let ghost inner = resp@;
                let allow_name = String::from_str(
                    "access-control-allow-origin",
                );
                match lookup_header(&resp.headers, &allow_name) {
                    Some(_) => {
                        proof {
                            assert(resp@ == with_allow_origin(inner));
                        }
                        Ok(resp)
                    }
                    None => {
                        let star = String::from_str("*");
                        resp.headers.push((allow_name, star));
                        proof {
                            assert(resp@.headers =~= inner.headers.push((
                                "access-control-allow-origin"@,
                                "*"@,
                            )));
                            assert(resp@ =~= with_allow_origin(inner));
                        }
                        Ok(resp)
                    }
                }
            }
            CorsResponse::Preflight { .. } => Err(
                HttpError::new(500, String::from_str("unrenderable output")),
            ),
        }
    }
}

} // verus!
