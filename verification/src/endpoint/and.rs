//! The sequencing combinator: both endpoints must match, the second seeing
//! the cursor the first one left, with their outputs concatenated.

use vstd::prelude::*;

use crate::endpoint::{apply_ok, eresolve, Context, Endpoint, MatchOutcome};
use crate::task::{presolve, AndFuture, Producer, AV};

verus! {

/// The sequencing of two endpoints: `e2` is applied to the cursor `e1`
/// leaves, and the output tuples are concatenated in order. A decline or a
/// malformed report from either side is the whole outcome, and the other side
/// is then not consulted further.
#[derive(Debug)]
pub struct And {
    pub e1: Box<Endpoint>,
    pub e2: Box<Endpoint>,
}

impl And {
    /// Applies the left endpoint, then the right one against the evolved
    /// cursor; on two matches the producers are joined left-first.
    pub fn apply(&self, cx: &mut Context) -> (r: MatchOutcome)
        requires
            old(cx).wf(),
        ensures
            final (cx).wf(),
            final (cx).input == old(cx).input,
            final (cx).pos >= old(cx).pos,
            apply_ok(
                Endpoint::Both(And { e1: self.e1, e2: self.e2 }),
                old(cx).input@,
                old(cx).pos as int,
                final (cx).pos as int,
                r,
            ),
        decreases self,
    {
        let ghost rv = cx.input@;
        let ghost pos0 = cx.pos as int;
        let saved = cx.pos;
        match self.e1.apply(cx) {
            MatchOutcome::Matched(p1) => {
                let ghost mid = cx.pos as int;
                let ghost p1g = p1;
                match self.e2.apply(cx) {
                    MatchOutcome::Matched(p2) => {
                        let ghost p2g = p2;
                        let join = Producer::Join(
                            Box::new(AndFuture { f1: Box::new(p1), f2: Box::new(p2) }),
                        );
                        proof {
                            let e = Endpoint::Both(And { e1: self.e1, e2: self.e2 });
                            assert forall|b: AV| #[trigger] presolve(join, b) == eresolve(
                                e,
                                rv,
                                pos0,
                                b,
                            ) by {
                                assert(presolve(p1g, b) == eresolve(*self.e1, rv, pos0, b));
                                let b1 = presolve(p1g, b).1;
                                assert(presolve(p2g, b1) == eresolve(*self.e2, rv, mid, b1));
                            }
                        }
                        MatchOutcome::Matched(join)
                    }
                    MatchOutcome::Malformed(e) => MatchOutcome::Malformed(e),
                    MatchOutcome::Declined => {
                        cx.pos = saved;
                        MatchOutcome::Declined
                    }
                }
            }
            MatchOutcome::Malformed(e) => MatchOutcome::Malformed(e),
            MatchOutcome::Declined => {
                cx.pos = saved;
                MatchOutcome::Declined
            }
        }
    }
}

} // verus!
