//! The mapping combinator: the match phase is the inner endpoint's, and the
//! producer feeds its output through a pure transform.

use vstd::prelude::*;

use crate::endpoint::{apply_ok, eresolve, Context, Endpoint, MatchOutcome};
use crate::task::{presolve, MapAsyncTask, Producer, Transform, AV};

verus! {

/// The mapping of an endpoint's output through a pure transform; the match
/// phase is unchanged and no new failure mode is introduced.
#[derive(Debug)]
pub struct MapAsync {
    pub endpoint: Box<Endpoint>,
    pub f: Transform,
}

/// Wraps an endpoint so that its output is fed through the transform.
pub fn new(endpoint: Endpoint, f: Transform) -> (r: MapAsync)
    ensures
        r == (MapAsync { endpoint: Box::new(endpoint), f }),
{
    MapAsync { endpoint: Box::new(endpoint), f }
}

impl MapAsync {
    /// Applies the inner endpoint unchanged; a match wraps its producer in
    /// the transforming state machine.
    pub fn apply(&self, cx: &mut Context) -> (r: MatchOutcome)
        requires
            old(cx).wf(),
        ensures
            final (cx).wf(),
            final (cx).input == old(cx).input,
            final (cx).pos >= old(cx).pos,
            apply_ok(
                Endpoint::Mapped(MapAsync { endpoint: self.endpoint, f: self.f }),
                old(cx).input@,
                old(cx).pos as int,
                final (cx).pos as int,
                r,
            ),
        decreases self,
    {
        let ghost rv = cx.input@;
        let ghost pos0 = cx.pos as int;
        match self.endpoint.apply(cx) {
            MatchOutcome::Matched(p) => {
                let ghost pg = p;
                let f2 = self.f.clone();
                let ghost f2g = f2;
                let wrapped = Producer::MapAsync(Box::new(MapAsyncTask::First(p, f2)));
                proof {
                    let e = Endpoint::Mapped(MapAsync { endpoint: self.endpoint, f: self.f });
                    assert forall|b: AV| #[trigger] presolve(wrapped, b) == eresolve(
                        e,
                        rv,
                        pos0,
                        b,
                    ) by {
                        assert(presolve(pg, b) == eresolve(*self.endpoint, rv, pos0, b));
                    }
                }
                MatchOutcome::Matched(wrapped)
            }
            MatchOutcome::Malformed(e) => MatchOutcome::Malformed(e),
            MatchOutcome::Declined => MatchOutcome::Declined,
        }
    }
}

} // verus!
