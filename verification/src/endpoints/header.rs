//! Header endpoints: optional, required and exact-value matchers.

use vstd::prelude::*;

use crate::endpoint::{apply_ok, Context, Endpoint, MatchOutcome};
use crate::generic::{outs, Value, VV};
use crate::task::{OptionalFuture, Producer, ReadyFuture, RequiredFuture};

verus! {

/// An endpoint that reads a header and declines when it is absent, letting a
/// sibling alternative try the request instead.
#[derive(Debug)]
pub struct Optional {
    pub name: String,
}

/// Creates an optional-header endpoint for the given header name.
pub fn optional(name: String) -> (r: Optional)
    ensures
        r.name@ == name@,
{
    Optional { name }
}

impl Optional {
    /// Declines when the header is absent; otherwise matches, consuming
    /// nothing, and the producer hands the header value out.
    pub fn apply(&self, cx: &mut Context) -> (r: MatchOutcome)
        requires
            old(cx).wf(),
        ensures
            final (cx).wf(),
            final (cx).input == old(cx).input,
            final (cx).pos >= old(cx).pos,
            apply_ok(
                Endpoint::OptionalHeader(Optional { name: self.name }),
                old(cx).input@,
                old(cx).pos as int,
                final (cx).pos as int,
                r,
            ),
    {
        match cx.input.header(&self.name) {
            Some(_) => MatchOutcome::Matched(
                Producer::HeaderOptional(OptionalFuture { name: self.name.clone() }),
            ),
            None => MatchOutcome::Declined,
        }
    }
}

/// An endpoint that always matches structurally and reads a header in its
/// asynchronous phase, where a missing header is a bad request.
#[derive(Debug)]
pub struct Required {
    pub name: String,
}

/// Creates a required-header endpoint for the given header name.
pub fn required(name: String) -> (r: Required)
    ensures
        r.name@ == name@,
{
    Required { name }
}

impl Required {
    /// Matches unconditionally, consuming nothing; the producer reads the
    /// header and reports a bad request when it is missing.
    pub fn apply(&self, cx: &mut Context) -> (r: MatchOutcome)
        requires
            old(cx).wf(),
        ensures
            final (cx).wf(),
            final (cx).input == old(cx).input,
            final (cx).pos >= old(cx).pos,
            apply_ok(
                Endpoint::RequiredHeader(Required { name: self.name }),
                old(cx).input@,
                old(cx).pos as int,
                final (cx).pos as int,
                r,
            ),
    {
        MatchOutcome::Matched(Producer::HeaderRequired(RequiredFuture { name: self.name.clone() }))
    }
}

/// An endpoint that compares a header against a fixed value and declines on
/// any mismatch or absence.
#[derive(Debug)]
pub struct Exact {
    pub name: String,
    pub value: String,
}

/// Creates an exact-value header matcher.
pub fn exact(name: String, value: String) -> (r: Exact)
    ensures
        r.name@ == name@,
        r.value@ == value@,
{
    Exact { name, value }
}

impl Exact {
    /// Matches with the empty output exactly when the header is present with
    /// the expected value; declines otherwise.
    pub fn apply(&self, cx: &mut Context) -> (r: MatchOutcome)
        requires
            old(cx).wf(),
        ensures
            final (cx).wf(),
            final (cx).input == old(cx).input,
            final (cx).pos >= old(cx).pos,
            apply_ok(
                Endpoint::ExactHeader(Exact { name: self.name, value: self.value }),
                old(cx).input@,
                old(cx).pos as int,
                final (cx).pos as int,
                r,
            ),
    {
        match cx.input.header(&self.name) {
            Some(v) => {
                if *v == self.value {
                    let out: Vec<Value> = Vec::new();
                    proof {
                        assert(outs(out@) =~= Seq::<VV>::empty());
                    }
                    MatchOutcome::Matched(Producer::Ready(ReadyFuture { value: Some(Ok(out)) }))
                } else {
                    MatchOutcome::Declined
                }
            }
            None => MatchOutcome::Declined,
        }
    }
}

} // verus!
