//! The aborting combinator: a fallible transform on the output whose failure
//! aborts the whole computation with a typed error.

use vstd::prelude::*;

use crate::endpoint::{apply_ok, eresolve, Context, Endpoint, MatchOutcome};
use crate::task::{presolve, Producer, TryAbortOutcome, TryTransform, AV};

verus! {

/// The application of a fallible transform to an endpoint's output; the match
/// phase is unchanged, and a failing transform aborts the asynchronous phase.
#[derive(Debug)]
pub struct TryAbort {
    pub endpoint: Box<Endpoint>,
    pub f: TryTransform,
}

/// Wraps an endpoint so that its output is fed through the fallible
/// transform, whose failure aborts.
pub fn new(endpoint: Endpoint, f: TryTransform) -> (r: TryAbort)
    ensures
        r == (TryAbort { endpoint: Box::new(endpoint), f }),
{
    TryAbort { endpoint: Box::new(endpoint), f }
}

impl TryAbort {
    /// Applies the inner endpoint unchanged; a match wraps its producer so
    /// the transform is applied, and consumed, on resolution.
    pub fn apply(&self, cx: &mut Context) -> (r: MatchOutcome)
        requires
            old(cx).wf(),
        ensures
            final (cx).wf(),
            final (cx).input == old(cx).input,
            final (cx).pos >= old(cx).pos,
            apply_ok(
                Endpoint::Aborting(TryAbort { endpoint: self.endpoint, f: self.f }),
                old(cx).input@,
                old(cx).pos as int,
                final (cx).pos as int,
                r,
            ),
        decreases self,
    {
        let ghost rv = cx.input@;
        let ghost pos0 = cx.pos as int;
        match self.endpoint.apply(cx) {
            MatchOutcome::Matched(p) => {
                let ghost pg = p;
                let f2 = self.f.clone();
                let wrapped = Producer::TryAbort(
                    Box::new(TryAbortOutcome { outcome: p, f: Some(f2) }),
                );
                proof {
                    let e = Endpoint::Aborting(TryAbort { endpoint: self.endpoint, f: self.f });
                    assert forall|b: AV| #[trigger] presolve(wrapped, b) == eresolve(
                        e,
                        rv,
                        pos0,
                        b,
                    ) by {
                        assert(presolve(pg, b) == eresolve(*self.endpoint, rv, pos0, b));
                    }
                }
                MatchOutcome::Matched(wrapped)
            }
            MatchOutcome::Malformed(e) => MatchOutcome::Malformed(e),
            MatchOutcome::Declined => MatchOutcome::Declined,
        }
    }
}

} // verus!
