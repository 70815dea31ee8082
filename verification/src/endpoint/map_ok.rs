//! Mapping the success side of a result-valued output.

use vstd::prelude::*;

use crate::endpoint::{apply_ok, eresolve, Context, Endpoint, MatchOutcome};
use crate::task::{presolve, MapOkOutcome, Producer, ValueTransform, AV};

verus! {

/// The mapping of the success side of an endpoint's result-valued output;
/// the match phase is unchanged.
#[derive(Debug)]
pub struct MapOk {
    pub endpoint: Box<Endpoint>,
    pub f: ValueTransform,
}

/// Wraps an endpoint so that the success side of its result-valued output is
/// fed through the transform.
pub fn new(endpoint: Endpoint, f: ValueTransform) -> (r: MapOk)
    ensures
        r == (MapOk { endpoint: Box::new(endpoint), f }),
{
    MapOk { endpoint: Box::new(endpoint), f }
}

impl MapOk {
    /// Applies the inner endpoint unchanged; a match wraps its producer so
    /// the transform is applied, and consumed, on resolution.
    pub fn apply(&self, cx: &mut Context) -> (r: MatchOutcome)
        requires
            old(cx).wf(),
        ensures
            final (cx).wf(),
            final (cx).input == old(cx).input,
            final (cx).pos >= old(cx).pos,
            apply_ok(
                Endpoint::MappedOk(MapOk { endpoint: self.endpoint, f: self.f }),
                old(cx).input@,
                old(cx).pos as int,
                final (cx).pos as int,
                r,
            ),
        decreases self,
    {
        let ghost rv = cx.input@;
        let ghost pos0 = cx.pos as int;
        match self.endpoint.apply(cx) {
            MatchOutcome::Matched(p) => {
                let ghost pg = p;
                let f2 = self.f.clone();
                let ghost f2g = f2;
                let wrapped = Producer::MapOk(
                    Box::new(MapOkOutcome { outcome: p, f: Some(f2) }),
                );
                proof {
                    let e = Endpoint::MappedOk(MapOk { endpoint: self.endpoint, f: self.f });
                    assert forall|b: AV| #[trigger] presolve(wrapped, b) == eresolve(
                        e,
                        rv,
                        pos0,
                        b,
                    ) by {
                        assert(presolve(pg, b) == eresolve(*self.endpoint, rv, pos0, b));
                        assert(crate::task::map_ok_s(f2g, presolve(pg, b).0->Out_0) =~= crate::task::map_ok_s(
                            self.f,
                            presolve(pg, b).0->Out_0,
                        ));
                    }
                }
                MatchOutcome::Matched(wrapped)
            }
            MatchOutcome::Malformed(e) => MatchOutcome::Malformed(e),
            MatchOutcome::Declined => MatchOutcome::Declined,
        }
    }
}

} // verus!
