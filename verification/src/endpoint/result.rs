//! Constant-result endpoints: always match and resolve to a fixed success or
//! a fixed typed error.

use vstd::prelude::*;

use crate::endpoint::{apply_ok, Context, Endpoint, MatchOutcome};
use crate::error::HttpError;
use crate::generic::{outs, vview, Value};
use crate::task::{Producer, ReadyFuture};

verus! {

/// An endpoint that matches every request and succeeds with a copy of a
/// fixed value.
#[derive(Debug)]
pub struct EndpointOk {
    pub x: Value,
}

/// Creates an endpoint that always succeeds with the given value.
pub fn ok(x: Value) -> (r: EndpointOk)
    ensures
        vview(r.x) == vview(x),
{
    EndpointOk { x }
}

impl EndpointOk {
    /// Matches unconditionally; the producer succeeds with the stored value.
    pub fn apply(&self, cx: &mut Context) -> (r: MatchOutcome)
        requires
            old(cx).wf(),
        ensures
            final (cx).wf(),
            final (cx).input == old(cx).input,
            final (cx).pos >= old(cx).pos,
            apply_ok(
                Endpoint::ConstOk(EndpointOk { x: self.x }),
                old(cx).input@,
                old(cx).pos as int,
                final (cx).pos as int,
                r,
            ),
    {
        let mut out: Vec<Value> = Vec::new();
        out.push(self.x.clone());
        proof {
            assert(outs(out@) =~= seq![vview(self.x)]);
        }
        MatchOutcome::Matched(Producer::Ready(ReadyFuture { value: Some(Ok(out)) }))
    }
}

/// An endpoint that matches every request and fails with a copy of a fixed
/// typed error.
#[derive(Debug)]
pub struct EndpointErr {
    pub x: HttpError,
}

/// Creates an endpoint that always fails with the given error.
pub fn err(x: HttpError) -> (r: EndpointErr)
    ensures
        r.x@ == x@,
{
    EndpointErr { x }
}

impl EndpointErr {
    /// Matches unconditionally; the producer fails with the stored error.
    pub fn apply(&self, cx: &mut Context) -> (r: MatchOutcome)
        requires
            old(cx).wf(),
        ensures
            final (cx).wf(),
            final (cx).input == old(cx).input,
            final (cx).pos >= old(cx).pos,
            apply_ok(
                Endpoint::ConstErr(EndpointErr { x: self.x }),
                old(cx).input@,
                old(cx).pos as int,
                final (cx).pos as int,
                r,
            ),
    {
        MatchOutcome::Matched(Producer::Ready(ReadyFuture { value: Some(Err(self.x.clone())) }))
    }
}

/// An endpoint that matches every request and resolves to a copy of a fixed
/// result: its success value or its typed error.
#[derive(Debug)]
pub struct EndpointResult {
    pub x: Result<Value, HttpError>,
}

/// Creates an endpoint that always resolves to the given result.
pub fn result(x: Result<Value, HttpError>) -> (r: EndpointResult)
    ensures
        match (r.x, x) {
            (Ok(rv), Ok(xv)) => vview(rv) == vview(xv),
            (Err(re), Err(xe)) => re@ == xe@,
            _ => false,
        },
{
    EndpointResult { x }
}

impl EndpointResult {
    /// Matches unconditionally; the producer resolves to the stored result.
    pub fn apply(&self, cx: &mut Context) -> (r: MatchOutcome)
        requires
            old(cx).wf(),
        ensures
            final (cx).wf(),
            final (cx).input == old(cx).input,
            final (cx).pos >= old(cx).pos,
            apply_ok(
                Endpoint::ConstResult(EndpointResult { x: self.x }),
                old(cx).input@,
                old(cx).pos as int,
                final (cx).pos as int,
                r,
            ),
    {
        match &self.x {
            Ok(v) => {
                let mut out: Vec<Value> = Vec::new();
                out.push(v.clone());
                proof {
                    assert(outs(out@) =~= seq![vview(self.x->Ok_0)]);
                }
                MatchOutcome::Matched(Producer::Ready(ReadyFuture { value: Some(Ok(out)) }))
            }
            Err(e) => MatchOutcome::Matched(
                Producer::Ready(ReadyFuture { value: Some(Err(e.clone())) }),
            ),
        }
    }
}

} // verus!
