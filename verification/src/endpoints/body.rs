//! The body-extraction endpoint: matching never reads the body; the producer
//! takes the taken-once body stream and converts it.

use vstd::prelude::*;

use crate::endpoint::{apply_ok, Context, Endpoint, MatchOutcome};
use crate::task::{BodyKind, BodyTask, Producer};

verus! {

/// An endpoint that extracts the request body. It always matches at the
/// synchronous phase; the producer takes exclusive ownership of the body — a
/// second extraction within the same request is the fatal double-extraction
/// condition — and converts the bytes.
#[derive(Debug, Clone, Copy)]
pub struct Body {
    pub kind: BodyKind,
}

/// Creates a body-extraction endpoint with the given conversion.
pub fn body(kind: BodyKind) -> (r: Body)
    ensures
        r == (Body { kind }),
{
    Body { kind }
}

impl Body {
    /// Matches unconditionally, consuming nothing; body reading is deferred
    /// entirely to the asynchronous phase.
    pub fn apply(&self, cx: &mut Context) -> (r: MatchOutcome)
        requires
            old(cx).wf(),
        ensures
            final (cx).wf(),
            final (cx).input == old(cx).input,
            final (cx).pos >= old(cx).pos,
            apply_ok(
                Endpoint::Payload(*self),
                old(cx).input@,
                old(cx).pos as int,
                final (cx).pos as int,
                r,
            ),
    {
        MatchOutcome::Matched(Producer::Body(BodyTask::Init(self.kind)))
    }
}

/// An endpoint that hands the raw body stream out as bytes; the stream can be
/// taken exactly once.
#[derive(Debug, Clone, Copy)]
pub struct BodyStream {
    pub _priv: (),
}

/// Creates an endpoint that takes the raw body stream.
pub fn body_stream() -> (r: BodyStream)
    ensures
        r == (BodyStream { _priv: () }),
{
    BodyStream { _priv: () }
}

impl BodyStream {
    /// Matches unconditionally; the producer takes the body stream whole.
    pub fn apply(&self, cx: &mut Context) -> (r: MatchOutcome)
        requires
            old(cx).wf(),
        ensures
            final (cx).wf(),
            final (cx).input == old(cx).input,
            final (cx).pos >= old(cx).pos,
            apply_ok(
                Endpoint::PayloadStream(*self),
                old(cx).input@,
                old(cx).pos as int,
                final (cx).pos as int,
                r,
            ),
    {
        MatchOutcome::Matched(Producer::Body(BodyTask::Init(BodyKind::Raw)))
    }
}

} // verus!
