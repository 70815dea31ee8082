//! The query-parameter endpoint of the eager kind: it reads and parses the
//! named parameter during the match phase and declines when it cannot.

use vstd::prelude::*;

use crate::endpoint::{apply_ok, Context, Endpoint, MatchOutcome};
use crate::generic::{outs, Value, VV};
use crate::parse::{parse_int, parse_int_s};
use crate::task::{lookup_query, query_lookup, Producer, ReadyFuture};

verus! {

/// An endpoint that extracts the named query parameter as an integer at match
/// time: a missing or unparsable parameter declines, so that another route
/// may answer the request.
#[derive(Debug)]
pub struct Param {
    pub name: String,
}

/// Creates an eager query-parameter endpoint for the given parameter name.
pub fn param(name: String) -> (r: Param)
    ensures
        r.name@ == name@,
{
    Param { name }
}

/// What the eager query-parameter matcher extracts: the integer value of the
/// named parameter, or nothing when the query string, the parameter or the
/// parse is missing.
pub open spec fn query_param_int(q: Option<Seq<char>>, name: Seq<char>) -> Option<int> {
    match q {
        None => None,
        Some(qs) => match query_lookup(qs, name) {
            None => None,
            Some(v) => parse_int_s(v),
        },
    }
}

impl Param {
    /// Matches, consuming no segments, exactly when the named query parameter
    /// is present and parses as an integer; declines otherwise.
    pub fn apply(&self, cx: &mut Context) -> (r: MatchOutcome)
        requires
            old(cx).wf(),
        ensures
            final (cx).wf(),
            final (cx).input == old(cx).input,
            final (cx).pos >= old(cx).pos,
            apply_ok(
                Endpoint::QueryParam(Param { name: self.name }),
                old(cx).input@,
                old(cx).pos as int,
                final (cx).pos as int,
                r,
            ),
    {
        match cx.input.query() {
            None => MatchOutcome::Declined,
            Some(q) => match lookup_query(q.as_str(), &self.name) {
                None => MatchOutcome::Declined,
                Some(v) => match parse_int(v.as_str()) {
                    None => MatchOutcome::Declined,
                    Some(n) => {
                        let ghost rv = cx.input@;
                        let mut out: Vec<Value> = Vec::new();
                        out.push(Value::Int(n));
                        proof {
                            assert(outs(out@) =~= seq![
                                VV::Int(query_param_int(rv.query, self.name@)->Some_0),
                            ]);
                        }
                        MatchOutcome::Matched(
                            Producer::Ready(ReadyFuture { value: Some(Ok(out)) }),
                        )
                    }
                },
            },
        }
    }
}

} // verus!
