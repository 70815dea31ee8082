//! Driving a whole request through an endpoint: build a request snapshot,
//! run the match phase from the first segment, then drive the producer.

use vstd::prelude::*;

use crate::endpoint::{apply_s, eresolve, Context, Endpoint, MatchOutcome, SOut};
use crate::error::{ErrV, HttpError};
use crate::generic::{outs, Value, VV};
use crate::request::{uri_path, uri_query, Method, ReqView, Request, UriError};
use crate::task::{AsyncInput, PollOutcome, AV, PR};

verus! {

/// A request under construction for driving an endpoint directly: the
/// snapshot plus an optional body.
#[derive(Debug)]
pub struct TestCase {
    pub request: Request,
    pub body: Option<Vec<u8>>,
}

impl TestCase {
    /// A freshly parsed case: the given method and target, no headers, no
    /// body.
    pub open spec fn is_fresh(self, method: Method, u: Seq<char>) -> bool {
        &&& self.request.wf()
        &&& self.request@.method == method
        &&& self.request@.path == uri_path(u)
        &&& self.request@.query == uri_query(u)
        &&& self.request@.headers.len() == 0
        &&& self.body is None
    }

    /// Parses a request target into a case with no headers and no body; the
    /// target must start with `'/'`.
    pub fn new(method: Method, uri: &str) -> (r: Result<TestCase, UriError>)
        ensures
            r is Ok <==> uri@.len() > 0 && uri@[0] == '/',
            r matches Ok(tc) ==> tc.is_fresh(method, uri@),
    {
        let request = Request::new(method, uri)?;
        Ok(TestCase { request, body: None })
    }

    /// A GET case for the given target.
    pub fn get(uri: &str) -> (r: Result<TestCase, UriError>)
        ensures
            r is Ok <==> uri@.len() > 0 && uri@[0] == '/',
            r matches Ok(tc) ==> tc.is_fresh(Method::Get, uri@),
    {
        Self::new(Method::Get, uri)
    }

    /// A POST case for the given target.
    pub fn post(uri: &str) -> (r: Result<TestCase, UriError>)
        ensures
            r is Ok <==> uri@.len() > 0 && uri@[0] == '/',
            r matches Ok(tc) ==> tc.is_fresh(Method::Post, uri@),
    {
        Self::new(Method::Post, uri)
    }

    /// A PUT case for the given target.
    pub fn put(uri: &str) -> (r: Result<TestCase, UriError>)
        ensures
            r is Ok <==> uri@.len() > 0 && uri@[0] == '/',
            r matches Ok(tc) ==> tc.is_fresh(Method::Put, uri@),
    {
        Self::new(Method::Put, uri)
    }

    /// A DELETE case for the given target.
    pub fn delete(uri: &str) -> (r: Result<TestCase, UriError>)
        ensures
            r is Ok <==> uri@.len() > 0 && uri@[0] == '/',
            r matches Ok(tc) ==> tc.is_fresh(Method::Delete, uri@),
    {
        Self::new(Method::Delete, uri)
    }

    /// A PATCH case for the given target.
    pub fn patch(uri: &str) -> (r: Result<TestCase, UriError>)
        ensures
            r is Ok <==> uri@.len() > 0 && uri@[0] == '/',
            r matches Ok(tc) ==> tc.is_fresh(Method::Patch, uri@),
    {
        Self::new(Method::Patch, uri)
    }

    /// Adds a header entry to the case's request.
    pub fn with_header(self, name: String, value: String) -> (r: TestCase)
        ensures
            r.request@ == (ReqView {
                headers: self.request@.headers.push((name@, value@)),
                ..self.request@
            }),
            self.request.wf() ==> r.request.wf(),
            r.body == self.body,
    {
        let TestCase { mut request, body } = self;
        request.push_header(name, value);
        TestCase { request, body }
    }

    /// Sets the case's request body.
    pub fn with_body(self, body: Vec<u8>) -> (r: TestCase)
        ensures
            r.request == self.request,
            r.body matches Some(b) && b@ == body@,
    {
        TestCase { request: self.request, body: Some(body) }
    }
}

/// The outcome of driving one request through an endpoint to completion.
#[derive(Debug)]
pub enum RouteResult {
    /// No route matched; the caller's default policy renders a 404.
    NoRoute,
    /// The route failed with a typed error, at match time or asynchronously.
    Failed(HttpError),
    /// The route matched and its producer resolved to this output tuple.
    Success(Vec<Value>),
    /// A programming-error condition was hit while resolving.
    Fatal(String),
}

/// The model of a whole routing run.
#[verifier::ext_equal]
pub ghost enum RouteV {
    NoRouteV,
    FailedV(ErrV),
    SuccessV(Seq<VV>),
    FatalV(Seq<char>),
}

/// The model of driving a request through an endpoint: the match phase from
/// position zero decides; a match is then resolved against the request's
/// query, headers, body and the file store.
pub open spec fn route_s(
    e: Endpoint,
    rv: ReqView,
    body: Option<Seq<u8>>,
    files: Seq<(Seq<char>, Seq<u8>)>,
) -> RouteV {
    match apply_s(e, rv, 0) {
        SOut::Declined => RouteV::NoRouteV,
        SOut::Malformed(ev) => RouteV::FailedV(ev),
        SOut::Matched(_) => {
            let a0 = AV {
                method: rv.method,
                query: rv.query,
                headers: rv.headers,
                body,
                files,
            };
            match eresolve(e, rv, 0, a0).0 {
                PR::Out(v) => RouteV::SuccessV(v),
                PR::Abort(ev) => RouteV::FailedV(ev),
                PR::Fatal(m) => RouteV::FatalV(m),
            }
        }
    }
}

/// Whether an executable route result is modelled by the given value.
pub open spec fn route_result_is(r: RouteResult, v: RouteV) -> bool {
    match r {
        RouteResult::NoRoute => v is NoRouteV,
        RouteResult::Failed(e) => v == RouteV::FailedV(e@),
        RouteResult::Success(out) => v == RouteV::SuccessV(outs(out@)),
        RouteResult::Fatal(m) => v == RouteV::FatalV(m@),
    }
}

/// A copy of a header list with the same model.
fn clone_pairs(vs: &Vec<(String, String)>) -> (r: Vec<(String, String)>)
    ensures
        Seq::new(r@.len(), |i: int| (r@[i].0@, r@[i].1@)) == Seq::new(
            vs@.len(),
            |i: int| (vs@[i].0@, vs@[i].1@),
        ),
{
    let mut r: Vec<(String, String)> = Vec::new();
    let mut i: usize = 0;
    while i < vs.len()
        invariant
            i <= vs@.len(),
            r@.len() == i,
            forall|j: int| 0 <= j < i ==> (#[trigger] r@[j]).0@ == vs@[j].0@ && r@[j].1@
                == vs@[j].1@,
        decreases vs@.len() - i,
    {
        r.push((vs[i].0.clone(), vs[i].1.clone()));
        i = i + 1;
    }
    proof {
        assert(Seq::new(r@.len(), |i: int| (r@[i].0@, r@[i].1@)) =~= Seq::new(
            vs@.len(),
            |i: int| (vs@[i].0@, vs@[i].1@),
        ));
    }
    r
}

/// Drives one request through an endpoint against the given file store.
pub fn run_with_store(endpoint: &Endpoint, input: TestCase, files: Vec<(String, Vec<u8>)>) -> (r:
    RouteResult)
    requires
        input.request.wf(),
    ensures
        route_result_is(
            r,
            route_s(
                *endpoint,
                input.request@,
                match input.body {
                    Some(b) => Some(b@),
                    None => None,
                },
                Seq::new(files@.len(), |i: int| (files@[i].0@, files@[i].1@)),
            ),
        ),
{
    let TestCase { request, body } = input;
    let mut cx = Context::new(&request);
    match endpoint.apply(&mut cx) {
        MatchOutcome::Declined => RouteResult::NoRoute,
        MatchOutcome::Malformed(e) => RouteResult::Failed(e),
        MatchOutcome::Matched(p) => {
            let query = match request.query() {
                Some(q) => Some(q.clone()),
                None => None,
            };
            let headers = clone_pairs(request.headers_list());
            let mut a = AsyncInput { method: *request.method(), query, headers, body, files };
            let ghost a0 = a@;
            proof {
                assert(a0 =~= (AV {
                    method: request@.method,
                    query: request@.query,
                    headers: request@.headers,
                    body: match input.body {
                        Some(b) => Some(b@),
                        None => None,
                    },
                    files: Seq::new(files@.len(), |i: int| (files@[i].0@, files@[i].1@)),
                }));
            }
            let (_spent, out) = p.poll_step(&mut a);
            match out {
                PollOutcome::Ready(v) => RouteResult::Success(v),
                PollOutcome::Abort(e) => RouteResult::Failed(e),
                PollOutcome::Fatal(m) => RouteResult::Fatal(m),
            }
        }
    }
}

/// Drives one request through an endpoint with an empty file store: applies
/// the match phase from the first segment and, on a match, resolves the
/// producer.
pub fn run_test(endpoint: &Endpoint, input: TestCase) -> (r: RouteResult)
    requires
        input.request.wf(),
    ensures
        route_result_is(
            r,
            route_s(
                *endpoint,
                input.request@,
                match input.body {
                    Some(b) => Some(b@),
                    None => None,
                },
                Seq::empty(),
            ),
        ),
{
    let files: Vec<(String, Vec<u8>)> = Vec::new();
    proof {
        assert(Seq::new(files@.len(), |i: int| (files@[i].0@, files@[i].1@)) =~= Seq::<(
            Seq<char>,
            Seq<u8>,
        )>::empty());
    }
    run_with_store(endpoint, input, files)
}

} // verus!
