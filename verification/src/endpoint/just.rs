//! The constant endpoint: always matches and yields a fixed value.

use vstd::prelude::*;

use crate::endpoint::{apply_ok, Context, Endpoint, MatchOutcome};
use crate::generic::{outs, vview, Value};
use crate::task::{Producer, ReadyFuture};

verus! {

/// An endpoint that matches every request, consumes nothing, and yields a
/// copy of a fixed value.
#[derive(Debug)]
pub struct Just {
    pub x: Value,
}

/// Creates a constant endpoint yielding the given value.
pub fn just(x: Value) -> (r: Just)
    ensures
        vview(r.x) == vview(x),
{
    Just { x }
}

impl Just {
    /// Matches unconditionally with a single-element output holding the
    /// stored value.
    pub fn apply(&self, cx: &mut Context) -> (r: MatchOutcome)
        requires
            old(cx).wf(),
        ensures
            final (cx).wf(),
            final (cx).input == old(cx).input,
            final (cx).pos >= old(cx).pos,
            apply_ok(
                Endpoint::JustVal(Just { x: self.x }),
                old(cx).input@,
                old(cx).pos as int,
                final (cx).pos as int,
                r,
            ),
    {
        let mut out: Vec<Value> = Vec::new();
        out.push(self.x.clone());
        proof {
            assert(outs(out@) =~= seq![vview(self.x)]);
        }
        MatchOutcome::Matched(Producer::Ready(ReadyFuture { value: Some(Ok(out)) }))
    }
}

} // verus!
