//! The query-string endpoint: matches structurally, validates asynchronously.

use vstd::prelude::*;

use crate::endpoint::{apply_ok, Context, Endpoint, MatchOutcome};
use crate::generic::clone_strings;
use crate::task::{presolve, query_resolve, Producer, QueryFuture};

verus! {

/// An endpoint that extracts a record of required parameters from the query
/// string. It always matches structurally: a missing query string or a
/// missing parameter is reported by the asynchronous phase as a bad request,
/// never as a decline.
#[derive(Debug)]
pub struct Query {
    pub required: Vec<String>,
}

/// Creates a query endpoint with the given required parameter names, in the
/// order their values are produced.
pub fn query(required: Vec<String>) -> (r: Query)
    ensures
        r.required.deep_view() == required.deep_view(),
{
    Query { required }
}

impl Query {
    /// Matches unconditionally, consuming nothing; the producer reads and
    /// validates the query string.
    pub fn apply(&self, cx: &mut Context) -> (r: MatchOutcome)
        requires
            old(cx).wf(),
        ensures
            final (cx).wf(),
            final (cx).input == old(cx).input,
            final (cx).pos >= old(cx).pos,
            apply_ok(
                Endpoint::QueryRecord(Query { required: self.required }),
                old(cx).input@,
                old(cx).pos as int,
                final (cx).pos as int,
                r,
            ),
    {
        let qf = QueryFuture { required: clone_strings(&self.required) };
        proof {
            assert(forall|b: crate::task::AV| #[trigger] presolve(Producer::Query(qf), b) == (
                query_resolve(self.required.deep_view(), b),
                b,
            ));
        }
        MatchOutcome::Matched(Producer::Query(qf))
    }
}

} // verus!
