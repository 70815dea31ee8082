//! Endpoints that consume path segments: literals, end-of-path, typed
//! parameters and the remainder matcher.

use vstd::prelude::*;
use vstd::string::StrSliceExecFns;
use vstd::string::StringExecFns;

use crate::endpoint::{apply_ok, Context, Endpoint, MatchOutcome};
use crate::error::{ErrV, ParamError};
use crate::generic::{outs, Value, VV};
use crate::parse::{parse_int, parse_int_s};
use crate::request::{seg_split, split_from};
use crate::task::{presolve, Producer, ReadyFuture, PR};

verus! {

/// The target type of a typed path parameter.
#[derive(Debug, Clone, Copy, PartialEq, Eq, Structural)]
pub enum ParamKind {
    /// A signed 64-bit integer; a segment that does not parse is a malformed
    /// request.
    Int,
    /// The raw segment text; never fails.
    Text,
}

/// The error reported when a typed path parameter fails to parse.
pub open spec fn param_parse_err() -> ErrV {
    ErrV { status: 400, msg: "failed to parse a path segment"@ }
}

/// Matches a fixed run of path segments, as written in the literal with `'/'`
/// between them.
pub open spec fn match_path_s(lits: Seq<Seq<char>>, segs: Seq<Seq<char>>, pos: int) -> Option<int>
    decreases lits.len(),
{
    if lits.len() == 0 {
        Some(pos)
    } else if 0 <= pos < segs.len() && segs[pos] == lits[0] {
        match_path_s(lits.skip(1), segs, pos + 1)
    } else {
        None
    }
}

/// The suffix of the path from a given segment on, joined by `'/'`.
pub open spec fn join_segs(segs: Seq<Seq<char>>) -> Seq<char>
    decreases segs.len(),
{
    if segs.len() == 0 {
        Seq::empty()
    } else if segs.len() == 1 {
        segs[0]
    } else {
        segs[0] + seq!['/'] + join_segs(segs.skip(1))
    }
}

/// Joins the segments from index `from` on with `'/'`.
pub fn join_from(segs: &Vec<String>, from: usize) -> (r: String)
    requires
        from <= segs@.len(),
    ensures
        r@ == join_segs(segs.deep_view().skip(from as int)),
    decreases segs@.len() - from,
{
    let ghost suffix = segs.deep_view().skip(from as int);
    if from == segs.len() {
        let r = String::new();
        proof {
            assert(suffix =~= Seq::<Seq<char>>::empty());
        }
        r
    } else if from + 1 == segs.len() {
        let r = segs[from].clone();
        proof {
            assert(suffix[0] == segs.deep_view()[from as int]);
        }
        r
    } else {
        let rest = join_from(segs, from + 1);
        let r = segs[from].clone().concat("/").concat(rest.as_str());
        proof {
            reveal_strlit("/");
            assert("/"@ =~= seq!['/']);
            assert(suffix.skip(1) =~= segs.deep_view().skip(from + 1));
            assert(suffix[0] == segs.deep_view()[from as int]);
        }
        r
    }
}

/// The path-literal matcher: consumes one segment per literal chunk and
/// requires each to be equal; a shortfall or a mismatch declines with the
/// cursor restored.
#[derive(Debug)]
pub struct MatchPath {
    pub segments: Vec<String>,
}

/// Creates a path-literal endpoint; `'/'` in the literal separates the
/// segments it will match in order.
pub fn path(s: &str) -> (r: MatchPath)
    ensures
        r.segments.deep_view() == seg_split(s@),
{
    let v = split_from(s, '/', 0);
    proof {
        assert(s@.skip(0) =~= s@);
    }
    MatchPath { segments: v }
}

/// A producer that immediately yields the empty output tuple.
fn empty_ready() -> (r: Producer)
    ensures
        forall|b: crate::task::AV| #[trigger] presolve(r, b) == (
            PR::Out(Seq::<VV>::empty()),
            b,
        ),
{
    let v: Vec<Value> = Vec::new();
    proof {
        assert(outs(v@) =~= Seq::<VV>::empty());
    }
    Producer::Ready(ReadyFuture { value: Some(Ok(v)) })
}

impl MatchPath {
    /// Matches the literal's segments against the next cursor positions:
    /// all equal matches with the empty output, anything else declines.
    pub fn apply(&self, cx: &mut Context) -> (r: MatchOutcome)
        requires
            old(cx).wf(),
        ensures
            final (cx).wf(),
            final (cx).input == old(cx).input,
            final (cx).pos >= old(cx).pos,
            apply_ok(
                Endpoint::Path(*self),
                old(cx).input@,
                old(cx).pos as int,
                final (cx).pos as int,
                r,
            ),
    {
        let ghost rv = cx.input@;
        let ghost lits = self.segments.deep_view();
        let ghost pos0 = cx.pos as int;
        let saved = cx.pos;
        proof {
            assert(lits.skip(0) =~= lits);
        }
        let mut i: usize = 0;
        while i < self.segments.len()
            invariant
                cx.wf(),
                cx.input == old(cx).input,
                rv == cx.input@,
                lits == self.segments.deep_view(),
                pos0 == saved as int,
                saved == old(cx).pos,
                i <= lits.len(),
                cx.pos >= saved,
                match_path_s(lits, rv.segments, pos0) == match_path_s(
                    lits.skip(i as int),
                    rv.segments,
                    cx.pos as int,
                ),
            decreases lits.len() - i,
        {
            let ghost pre = cx.pos as int;
            match cx.next_segment() {
                None => {
                    proof {
                        assert(lits.skip(i as int)[0] == lits[i as int]);
                    }
                    cx.pos = saved;
                    return MatchOutcome::Declined;
                }
                Some(seg) => {
                    proof {
                        assert(lits.skip(i as int)[0] == lits[i as int]);
                    }
                    if !(seg == self.segments[i]) {
                        proof {
                            assert(self.segments@[i as int]@ == lits[i as int]);
                        }
                        cx.pos = saved;
                        return MatchOutcome::Declined;
                    }
                    proof {
                        assert(self.segments@[i as int]@ == lits[i as int]);
                        assert(lits.skip(i as int).skip(1) =~= lits.skip(i + 1));
                    }
                    i = i + 1;
                }
            }
        }
        proof {
            assert(lits.skip(i as int) =~= Seq::<Seq<char>>::empty());
        }
        MatchOutcome::Matched(empty_ready())
    }
}

/// The end-of-path matcher: matches exactly when the cursor is exhausted.
#[derive(Debug, Clone, Copy)]
pub struct EndPath {
    pub _priv: (),
}

/// Creates an endpoint that checks that the whole path has been consumed.
pub fn end() -> (r: EndPath)
    ensures
        r == (EndPath { _priv: () }),
{
    EndPath { _priv: () }
}

impl EndPath {
    /// Matches with the empty output when no segment remains; declines
    /// otherwise.
    pub fn apply(&self, cx: &mut Context) -> (r: MatchOutcome)
        requires
            old(cx).wf(),
        ensures
            final (cx).wf(),
            final (cx).input == old(cx).input,
            final (cx).pos >= old(cx).pos,
            apply_ok(
                Endpoint::End(*self),
                old(cx).input@,
                old(cx).pos as int,
                final (cx).pos as int,
                r,
            ),
    {
        if cx.pos == cx.input.segments().len() {
            MatchOutcome::Matched(empty_ready())
        } else {
            MatchOutcome::Declined
        }
    }
}

/// The typed path-parameter matcher: consumes one segment and converts it.
#[derive(Debug, Clone, Copy)]
pub struct Param {
    pub kind: ParamKind,
}

/// Creates a typed path-parameter endpoint for the given target type.
pub fn param(kind: ParamKind) -> (r: Param)
    ensures
        r == (Param { kind }),
{
    Param { kind }
}

impl Param {
    /// Declines when the cursor is exhausted; otherwise consumes the next
    /// segment and converts it, a failed parse being a malformed request,
    /// not a decline.
    pub fn apply(&self, cx: &mut Context) -> (r: MatchOutcome)
        requires
            old(cx).wf(),
        ensures
            final (cx).wf(),
            final (cx).input == old(cx).input,
            final (cx).pos >= old(cx).pos,
            apply_ok(
                Endpoint::Segment(*self),
                old(cx).input@,
                old(cx).pos as int,
                final (cx).pos as int,
                r,
            ),
    {
        let ghost rv = cx.input@;
        let ghost pos0 = cx.pos as int;
        match cx.next_segment() {
            None => MatchOutcome::Declined,
            Some(seg) => match self.kind {
                ParamKind::Text => {
                    let ghost sv = seg@;
                    let mut out: Vec<Value> = Vec::new();
                    out.push(Value::Str(seg));
                    proof {
                        assert(outs(out@) =~= seq![VV::Str(rv.segments[pos0])]);
                    }
                    MatchOutcome::Matched(Producer::Ready(ReadyFuture { value: Some(Ok(out)) }))
                }
                ParamKind::Int => match parse_int(seg.as_str()) {
                    Some(n) => {
                        let mut out: Vec<Value> = Vec::new();
                        out.push(Value::Int(n));
                        proof {
                            assert(outs(out@) =~= seq![
                                VV::Int(parse_int_s(rv.segments[pos0])->Some_0),
                            ]);
                        }
                        MatchOutcome::Matched(
                            Producer::Ready(ReadyFuture { value: Some(Ok(out)) }),
                        )
                    }
                    None => MatchOutcome::Malformed(
                        ParamError::new(
                            String::from_str("failed to parse a path segment"),
                        ).into_http_error(),
                    ),
                },
            },
        }
    }
}

/// The remainder matcher: consumes every remaining segment and converts the
/// joined suffix.
#[derive(Debug, Clone, Copy)]
pub struct Remains {
    pub kind: ParamKind,
}

/// Creates an endpoint that consumes the rest of the path and converts it.
pub fn remains(kind: ParamKind) -> (r: Remains)
    ensures
        r == (Remains { kind }),
{
    Remains { kind }
}

impl Remains {
    /// Consumes all remaining segments unconditionally and converts the
    /// suffix joined by `'/'`; a failed parse is a malformed request.
    pub fn apply(&self, cx: &mut Context) -> (r: MatchOutcome)
        requires
            old(cx).wf(),
        ensures
            final (cx).wf(),
            final (cx).input == old(cx).input,
            final (cx).pos >= old(cx).pos,
            apply_ok(
                Endpoint::Rest(*self),
                old(cx).input@,
                old(cx).pos as int,
                final (cx).pos as int,
                r,
            ),
    {
        let ghost rv = cx.input@;
        let ghost pos0 = cx.pos as int;
        let rem = cx.remaining_path();
        let n = cx.input.segments().len();
        cx.pos = n;
        match self.kind {
            ParamKind::Text => {
                let ghost remv = rem@;
                let mut out: Vec<Value> = Vec::new();
                out.push(Value::Str(rem));
                proof {
                    assert(outs(out@) =~= seq![VV::Str(join_segs(rv.segments.skip(pos0)))]);
                }
                MatchOutcome::Matched(Producer::Ready(ReadyFuture { value: Some(Ok(out)) }))
            }
            ParamKind::Int => match parse_int(rem.as_str()) {
                Some(n) => {
                    let mut out: Vec<Value> = Vec::new();
                    out.push(Value::Int(n));
                    proof {
                        assert(outs(out@) =~= seq![
                            VV::Int(parse_int_s(join_segs(rv.segments.skip(pos0)))->Some_0),
                        ]);
                    }
                    MatchOutcome::Matched(Producer::Ready(ReadyFuture { value: Some(Ok(out)) }))
                }
                None => MatchOutcome::Malformed(
                    ParamError::new(
                        String::from_str("failed to parse a path segment"),
                    ).into_http_error(),
                ),
            },
        }
    }
}

} // verus!
