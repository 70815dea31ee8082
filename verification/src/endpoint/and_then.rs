//! The fallible-chaining combinator: the match phase is the inner endpoint's,
//! and the producer feeds its output through a transform whose failure aborts
//! with a typed error.

use vstd::prelude::*;

use crate::endpoint::{apply_ok, eresolve, Context, Endpoint, MatchOutcome};
use crate::task::{presolve, Chain, Producer, TryTransform, AV};

verus! {

/// The chaining of a fallible transform after an endpoint: the asynchronous
/// phase runs the inner producer to completion, then the transform,
/// short-circuiting on error; only one stage is in flight at a time.
#[derive(Debug)]
pub struct AndThen {
    pub endpoint: Box<Endpoint>,
    pub f: TryTransform,
}

/// Wraps an endpoint so that its output is chained through the fallible
/// transform.
pub fn new(endpoint: Endpoint, f: TryTransform) -> (r: AndThen)
    ensures
        r == (AndThen { endpoint: Box::new(endpoint), f }),
{
    AndThen { endpoint: Box::new(endpoint), f }
}

impl AndThen {
    /// Applies the inner endpoint unchanged; a match wraps its producer in
    /// the chaining state machine.
    pub fn apply(&self, cx: &mut Context) -> (r: MatchOutcome)
        requires
            old(cx).wf(),
        ensures
            final (cx).wf(),
            final (cx).input == old(cx).input,
            final (cx).pos >= old(cx).pos,
            apply_ok(
                Endpoint::Chained(AndThen { endpoint: self.endpoint, f: self.f }),
                old(cx).input@,
                old(cx).pos as int,
                final (cx).pos as int,
                r,
            ),
        decreases self,
    {
        let ghost rv = cx.input@;
        let ghost pos0 = cx.pos as int;
        match self.endpoint.apply(cx) {
            MatchOutcome::Matched(p) => {
                let ghost pg = p;
                let f2 = self.f.clone();
                let wrapped = Producer::Chain(Box::new(Chain::new(p, f2)));
                proof {
                    let e = Endpoint::Chained(AndThen { endpoint: self.endpoint, f: self.f });
                    assert forall|b: AV| #[trigger] presolve(wrapped, b) == eresolve(
                        e,
                        rv,
                        pos0,
                        b,
                    ) by {
                        assert(presolve(pg, b) == eresolve(*self.endpoint, rv, pos0, b));
                    }
                }
                MatchOutcome::Matched(wrapped)
            }
            MatchOutcome::Malformed(e) => MatchOutcome::Malformed(e),
            MatchOutcome::Declined => MatchOutcome::Declined,
        }
    }
}

} // verus!
