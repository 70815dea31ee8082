//! Matching a whole sequence of endpoints while discarding their outputs.

use vstd::prelude::*;

use crate::endpoint::{apply_ok, skip_all_s, Context, Endpoint, MatchOutcome};
use crate::generic::{outs, Value, VV};
use crate::task::{Producer, ReadyFuture};

verus! {

broadcast use vstd::seq::group_seq_axioms, vstd::std_specs::vec::group_vec_axioms;

/// An endpoint that applies a list of endpoints in order against the same
/// evolving cursor, discards every output, and matches with the empty output
/// only when all of them match; a decline restores the cursor.
#[derive(Debug)]
pub struct SkipAll {
    pub endpoints: Vec<Endpoint>,
}

/// Creates an endpoint that matches all the given endpoints in order and
/// discards their outputs.
pub fn skip_all(endpoints: Vec<Endpoint>) -> (r: SkipAll)
    ensures
        r.endpoints@ == endpoints@,
{
    SkipAll { endpoints }
}

impl SkipAll {
    /// Applies the endpoints left to right against the evolving cursor: any
    /// decline restores the cursor and declines, any malformed report is
    /// terminal, and full success matches with the empty output.
    pub fn apply(&self, cx: &mut Context) -> (r: MatchOutcome)
        requires
            old(cx).wf(),
        ensures
            final (cx).wf(),
            final (cx).input == old(cx).input,
            final (cx).pos >= old(cx).pos,
            apply_ok(
                Endpoint::SkipMany(SkipAll { endpoints: self.endpoints }),
                old(cx).input@,
                old(cx).pos as int,
                final (cx).pos as int,
                r,
            ),
        decreases self,
    {
        let ghost rv = cx.input@;
        let ghost es = self.endpoints@;
        let saved = cx.pos;
        let mut i: usize = 0;
        while i < self.endpoints.len()
            invariant
                cx.wf(),
                cx.input == old(cx).input,
                rv == cx.input@,
                es == self.endpoints@,
                i <= es.len(),
                saved == old(cx).pos,
                cx.pos >= saved,
                skip_all_s(es, 0, rv, saved as int) == skip_all_s(es, i as int, rv, cx.pos as int),
            decreases es.len() - i,
        {
            match self.endpoints[i].apply(cx) {
                MatchOutcome::Matched(_discarded) => {
                    i = i + 1;
                }
                MatchOutcome::Malformed(e) => {
                    return MatchOutcome::Malformed(e);
                }
                MatchOutcome::Declined => {
                    cx.pos = saved;
                    return MatchOutcome::Declined;
                }
            }
        }
        let out: Vec<Value> = Vec::new();
        proof {
            assert(outs(out@) =~= Seq::<VV>::empty());
        }
        MatchOutcome::Matched(Producer::Ready(ReadyFuture { value: Some(Ok(out)) }))
    }
}

} // verus!
