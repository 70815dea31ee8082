//! The endpoint tree and the two-phase evaluation protocol.
//!
//! The synchronous match phase walks the request's path segments through a
//! cursor ([`Context`]) and either *declines* ("not my route"), reports the
//! request as *malformed* (structurally matched, invalid content), or
//! *matches* and hands back the producer of the asynchronous phase. The match
//! phase never touches the request body and never blocks.
//!
//! [`apply_s`] is the model of the match phase, [`eresolve`] the model of the
//! producer a match creates; every `apply` method is proved against both.

pub mod and;
pub mod and_then;
pub mod just;
pub mod map_async;
pub mod map_err;
pub mod map_ok;
pub mod result;
pub mod try_abort;

use vstd::prelude::*;

use crate::endpoints::body::{Body, BodyStream};
use crate::endpoints::fs::{bad_encoding_err, percent_decoded, Dir, File};
use crate::endpoints::header::{Exact, Optional, Required};
use crate::endpoints::path::{
    join_segs, match_path_s, param_parse_err, EndPath, MatchPath, Param, ParamKind, Remains,
};
use crate::endpoints::query::Query;
use crate::combinator::{query_param_int, Param as QueryParamByName};
use crate::endpoints::skip_all::SkipAll;
use crate::error::ErrV;
use crate::error::HttpError;
use crate::generic::vview;
use crate::parse::parse_int_s;
use crate::request::{header_lookup, Request};
use crate::task::{
    body_resolve, header_optional_resolve, header_required_resolve, query_resolve, Producer, AV,
    PR,
};

use self::and::And;
use self::and_then::AndThen;
use self::just::Just;
use self::map_async::MapAsync;
use self::map_err::MapErr;
use self::map_ok::MapOk;
use self::result::{EndpointErr, EndpointOk, EndpointResult};
use self::try_abort::TryAbort;

verus! {

broadcast use vstd::seq::group_seq_axioms;

/// The cursor over the request's path segments, paired with the request it
/// walks. Matching only ever moves the position forward; alternatives receive
/// independent copies seeded at the same position.
#[derive(Debug)]
pub struct Context<'a> {
    pub input: &'a Request,
    pub pos: usize,
}

impl<'a> Context<'a> {
    /// The cursor invariant: the request is well formed and the position
    /// stays within its segment sequence.
    pub open spec fn wf(self) -> bool {
        &&& self.input.wf()
        &&& self.pos <= self.input@.segments.len()
    }

    /// A fresh cursor at the first segment of the request.
    pub fn new(input: &'a Request) -> (r: Context<'a>)
        requires
            input.wf(),
        ensures
            r.wf(),
            r.input == input,
            r.pos == 0,
    {
        Context { input, pos: 0 }
    }

    /// Hands out the next path segment and advances, or reports exhaustion
    /// and stays put.
    pub fn next_segment(&mut self) -> (r: Option<String>)
        requires
            old(self).wf(),
        ensures
            final (self).wf(),
            final (self).input == old(self).input,
            match r {
                Some(seg) => old(self).pos < old(self).input@.segments.len() && seg@ == old(
                    self,
                ).input@.segments[old(self).pos as int] && final (self).pos == old(self).pos + 1,
                None => old(self).pos == old(self).input@.segments.len() && final (self).pos
                    == old(self).pos,
            },
    {
        let segs = self.input.segments();
        if self.pos < segs.len() {
            let s = segs[self.pos].clone();
            proof {
                assert(segs.deep_view()[self.pos as int] == segs@[self.pos as int]@);
            }
            self.pos = self.pos + 1;
            Some(s)
        } else {
            None
        }
    }

    /// The unconsumed suffix of the path, its segments joined by `'/'`.
    pub fn remaining_path(&self) -> (r: String)
        requires
            self.wf(),
        ensures
            r@ == join_segs(self.input@.segments.skip(self.pos as int)),
    {
        crate::endpoints::path::join_from(self.input.segments(), self.pos)
    }
}

/// The outcome of the synchronous match phase.
#[derive(Debug)]
pub enum MatchOutcome {
    /// Not this endpoint's route: siblings may be tried; without one, the
    /// request has no route.
    Declined,
    /// Structurally this endpoint's route, but the content is invalid:
    /// terminal for the whole attempt, never retried by siblings.
    Malformed(HttpError),
    /// The route matched; the producer computes the output asynchronously.
    Matched(Producer),
}

/// The model of a match outcome: declined, malformed with an error model, or
/// matched with the cursor position left behind.
#[verifier::ext_equal]
pub ghost enum SOut {
    Declined,
    Malformed(ErrV),
    Matched(int),
}

/// A composable route description.
#[derive(Debug)]
pub enum Endpoint {
    Path(MatchPath),
    End(EndPath),
    Segment(Param),
    Rest(Remains),
    QueryRecord(Query),
    OptionalHeader(Optional),
    RequiredHeader(Required),
    ExactHeader(Exact),
    Payload(Body),
    PayloadStream(BodyStream),
    JustVal(Just),
    ConstOk(EndpointOk),
    ConstErr(EndpointErr),
    ConstResult(EndpointResult),
    Both(And),
    Either(Or),
    Mapped(MapAsync),
    Chained(AndThen),
    MappedOk(MapOk),
    MappedErr(MapErr),
    Aborting(TryAbort),
    SkipMany(SkipAll),
    FileServe(File),
    DirServe(Dir),
    QueryParam(QueryParamByName),
}

/// The alternation of two endpoints, each tried on an independent cursor
/// copy; see [`apply_s`] for the selection rule.
#[derive(Debug)]
pub struct Or {
    pub e1: Box<Endpoint>,
    pub e2: Box<Endpoint>,
}

/// The model of the synchronous match phase: what an endpoint does to a
/// request seen from cursor position `pos`.
pub open spec fn apply_s(e: Endpoint, rv: crate::request::ReqView, pos: int) -> SOut
    decreases e, 0int,
{
    match e {
        Endpoint::Path(mp) => match match_path_s(mp.segments.deep_view(), rv.segments, pos) {
            Some(np) => SOut::Matched(np),
            None => SOut::Declined,
        },
        Endpoint::End(_) => if pos == rv.segments.len() {
            SOut::Matched(pos)
        } else {
            SOut::Declined
        },
        Endpoint::Segment(p) => if pos >= rv.segments.len() {
            SOut::Declined
        } else {
            match p.kind {
                ParamKind::Text => SOut::Matched(pos + 1),
                ParamKind::Int => match parse_int_s(rv.segments[pos]) {
                    Some(_) => SOut::Matched(pos + 1),
                    None => SOut::Malformed(param_parse_err()),
                },
            }
        },
        Endpoint::Rest(r) => match r.kind {
            ParamKind::Text => SOut::Matched(rv.segments.len() as int),
            ParamKind::Int => match parse_int_s(join_segs(rv.segments.skip(pos))) {
                Some(_) => SOut::Matched(rv.segments.len() as int),
                None => SOut::Malformed(param_parse_err()),
            },
        },
        Endpoint::QueryRecord(_) => SOut::Matched(pos),
        Endpoint::OptionalHeader(h) => if header_lookup(rv.headers, h.name@) is Some {
            SOut::Matched(pos)
        } else {
            SOut::Declined
        },
        Endpoint::RequiredHeader(_) => SOut::Matched(pos),
        Endpoint::ExactHeader(h) => if header_lookup(rv.headers, h.name@) == Some(h.value@) {
            SOut::Matched(pos)
        } else {
            SOut::Declined
        },
        Endpoint::Payload(_) => SOut::Matched(pos),
        Endpoint::PayloadStream(_) => SOut::Matched(pos),
        Endpoint::JustVal(_) => SOut::Matched(pos),
        Endpoint::ConstOk(_) => SOut::Matched(pos),
        Endpoint::ConstErr(_) => SOut::Matched(pos),
        Endpoint::ConstResult(_) => SOut::Matched(pos),
        Endpoint::Both(c) => match apply_s(*c.e1, rv, pos) {
            SOut::Matched(p1) => apply_s(*c.e2, rv, p1),
            other => other,
        },
        Endpoint::Either(o) => {
            let r1 = apply_s(*o.e1, rv, pos);
            let r2 = apply_s(*o.e2, rv, pos);
            match (r1, r2) {
                (SOut::Matched(p1), SOut::Matched(p2)) => if p2 > p1 {
                    SOut::Matched(p2)
                } else {
                    SOut::Matched(p1)
                },
                (SOut::Matched(p1), _) => SOut::Matched(p1),
                (_, SOut::Matched(p2)) => SOut::Matched(p2),
                (SOut::Malformed(e1), _) => SOut::Malformed(e1),
                (_, SOut::Malformed(e2)) => SOut::Malformed(e2),
                _ => SOut::Declined,
            }
        },
        Endpoint::Mapped(m) => apply_s(*m.endpoint, rv, pos),
        Endpoint::Chained(m) => apply_s(*m.endpoint, rv, pos),
        Endpoint::MappedOk(m) => apply_s(*m.endpoint, rv, pos),
        Endpoint::MappedErr(m) => apply_s(*m.endpoint, rv, pos),
        Endpoint::Aborting(m) => apply_s(*m.endpoint, rv, pos),
        Endpoint::SkipMany(sa) => skip_all_s(sa.endpoints@, 0, rv, pos),
        Endpoint::FileServe(_) => SOut::Matched(pos),
        Endpoint::DirServe(_) => SOut::Matched(rv.segments.len() as int),
        Endpoint::QueryParam(p) => match query_param_int(rv.query, p.name@) {
            Some(_) => SOut::Matched(pos),
            None => SOut::Declined,
        },
    }
}

/// The model of matching a sequence of endpoints one after the other, each
/// against the cursor its predecessor left; the outputs are all discarded.
pub open spec fn skip_all_s(
    es: Seq<Endpoint>,
    i: int,
    rv: crate::request::ReqView,
    pos: int,
) -> SOut
    decreases es, es.len() - i,
{
    if i < 0 || i >= es.len() {
        SOut::Matched(pos)
    } else {
        match apply_s(es[i], rv, pos) {
            SOut::Matched(np) => skip_all_s(es, i + 1, rv, np),
            other => other,
        }
    }
}

/// The model of the producer a successful match creates: what it resolves to
/// and the asynchronous-input state it leaves, mirroring
/// [`crate::task::presolve`] on the endpoint tree.
pub open spec fn eresolve(
    e: Endpoint,
    rv: crate::request::ReqView,
    pos: int,
    a: AV,
) -> (PR, AV)
    decreases e, 0int,
{
    match e {
        Endpoint::Path(_) => (PR::Out(Seq::empty()), a),
        Endpoint::End(_) => (PR::Out(Seq::empty()), a),
        Endpoint::Segment(p) => (
            match p.kind {
                ParamKind::Text => if 0 <= pos < rv.segments.len() {
                    PR::Out(seq![crate::generic::VV::Str(rv.segments[pos])])
                } else {
                    PR::Out(Seq::empty())
                },
                ParamKind::Int => if 0 <= pos < rv.segments.len() && parse_int_s(
                    rv.segments[pos],
                ) is Some {
                    PR::Out(seq![crate::generic::VV::Int(parse_int_s(rv.segments[pos])->Some_0)])
                } else {
                    PR::Out(Seq::empty())
                },
            },
            a,
        ),
        Endpoint::Rest(r) => (
            {
                let rem = join_segs(rv.segments.skip(pos));
                match r.kind {
                    ParamKind::Text => PR::Out(seq![crate::generic::VV::Str(rem)]),
                    ParamKind::Int => if parse_int_s(rem) is Some {
                        PR::Out(seq![crate::generic::VV::Int(parse_int_s(rem)->Some_0)])
                    } else {
                        PR::Out(Seq::empty())
                    },
                }
            },
            a,
        ),
        Endpoint::QueryRecord(q) => (query_resolve(q.required.deep_view(), a), a),
        Endpoint::OptionalHeader(h) => (header_optional_resolve(h.name@, a), a),
        Endpoint::RequiredHeader(h) => (header_required_resolve(h.name@, a), a),
        Endpoint::ExactHeader(_) => (PR::Out(Seq::empty()), a),
        Endpoint::Payload(b) => body_resolve(b.kind, a),
        Endpoint::PayloadStream(_) => body_resolve(crate::task::BodyKind::Raw, a),
        Endpoint::JustVal(j) => (PR::Out(seq![vview(j.x)]), a),
        Endpoint::ConstOk(c) => (PR::Out(seq![vview(c.x)]), a),
        Endpoint::ConstErr(c) => (PR::Abort(c.x@), a),
        Endpoint::ConstResult(c) => (
            match c.x {
                Ok(v) => PR::Out(seq![vview(v)]),
                Err(e2) => PR::Abort(e2@),
            },
            a,
        ),
        Endpoint::Both(c) => {
            match apply_s(*c.e1, rv, pos) {
                SOut::Matched(p1) => {
                    let (q1, a1) = eresolve(*c.e1, rv, pos, a);
                    match q1 {
                        PR::Out(v1) => {
                            let (q2, a2) = eresolve(*c.e2, rv, p1, a1);
                            match q2 {
                                PR::Out(v2) => (PR::Out(v1 + v2), a2),
                                other => (other, a2),
                            }
                        }
                        other => (other, a1),
                    }
                }
                _ => (PR::Out(Seq::empty()), a),
            }
        },
        Endpoint::Either(o) => {
            let r1 = apply_s(*o.e1, rv, pos);
            let r2 = apply_s(*o.e2, rv, pos);
            match (r1, r2) {
                (SOut::Matched(p1), SOut::Matched(p2)) => if p2 > p1 {
                    eresolve(*o.e2, rv, pos, a)
                } else {
                    eresolve(*o.e1, rv, pos, a)
                },
                (SOut::Matched(_), _) => eresolve(*o.e1, rv, pos, a),
                (_, SOut::Matched(_)) => eresolve(*o.e2, rv, pos, a),
                _ => (PR::Out(Seq::empty()), a),
            }
        },
        Endpoint::Mapped(m) => {
            let (q, a1) = eresolve(*m.endpoint, rv, pos, a);
            (
                match q {
                    PR::Out(v) => PR::Out(m.f.spec_apply(v)),
                    other => other,
                },
                a1,
            )
        },
        Endpoint::Chained(m) => {
            let (q, a1) = eresolve(*m.endpoint, rv, pos, a);
            (
                match q {
                    PR::Out(v) => match m.f.spec_apply(v) {
                        Ok(v2) => PR::Out(v2),
                        Err(e2) => PR::Abort(e2),
                    },
                    other => other,
                },
                a1,
            )
        },
        Endpoint::MappedOk(m) => {
            let (q, a1) = eresolve(*m.endpoint, rv, pos, a);
            (
                match q {
                    PR::Out(v) => PR::Out(crate::task::map_ok_s(m.f, v)),
                    other => other,
                },
                a1,
            )
        },
        Endpoint::MappedErr(m) => {
            let (q, a1) = eresolve(*m.endpoint, rv, pos, a);
            (
                match q {
                    PR::Out(v) => PR::Out(crate::task::map_err_s(m.f, v)),
                    other => other,
                },
                a1,
            )
        },
        Endpoint::Aborting(m) => {
            let (q, a1) = eresolve(*m.endpoint, rv, pos, a);
            (
                match q {
                    PR::Out(v) => match m.f.spec_apply(v) {
                        Ok(v2) => PR::Out(v2),
                        Err(e2) => PR::Abort(e2),
                    },
                    other => other,
                },
                a1,
            )
        },
        Endpoint::SkipMany(_) => (PR::Out(Seq::empty()), a),
        Endpoint::FileServe(f) => (crate::task::file_resolve(f.path@, false, a), a),
        Endpoint::DirServe(d) => (
            match percent_decoded(join_segs(rv.segments.skip(pos))) {
                None => PR::Abort(bad_encoding_err()),
                Some(dec) => crate::task::file_resolve(d.root@ + seq!['/'] + dec, true, a),
            },
            a,
        ),
        Endpoint::QueryParam(p) => (
            match query_param_int(rv.query, p.name@) {
                Some(n) => PR::Out(seq![crate::generic::VV::Int(n)]),
                None => PR::Out(Seq::empty()),
            },
            a,
        ),
    }
}

/// The whole contract of one `apply` call: the outcome and the cursor
/// position agree with [`apply_s`], and a matched producer resolves, at every
/// asynchronous-input state, to what [`eresolve`] says.
pub open spec fn apply_ok(
    e: Endpoint,
    rv: crate::request::ReqView,
    pos: int,
    post_pos: int,
    r: MatchOutcome,
) -> bool {
    match r {
        MatchOutcome::Declined => apply_s(e, rv, pos) == SOut::Declined && post_pos == pos,
        MatchOutcome::Malformed(err) => apply_s(e, rv, pos) == SOut::Malformed(err@),
        MatchOutcome::Matched(p) => {
            &&& apply_s(e, rv, pos) == SOut::Matched(post_pos)
            &&& forall|b: AV| #[trigger] crate::task::presolve(p, b) == eresolve(e, rv, pos, b)
        },
    }
}

impl Endpoint {
    /// Inspects the request through the cursor: declines, reports the request
    /// malformed, or matches, advancing the cursor over what it consumed and
    /// handing back the producer of the asynchronous phase.
    pub fn apply(&self, cx: &mut Context) -> (r: MatchOutcome)
        requires
            old(cx).wf(),
        ensures
            final (cx).wf(),
            final (cx).input == old(cx).input,
            final (cx).pos >= old(cx).pos,
            apply_ok(*self, old(cx).input@, old(cx).pos as int, final (cx).pos as int, r),
        decreases self,
    {
        match self {
            Endpoint::Path(mp) => mp.apply(cx),
            Endpoint::End(ep) => ep.apply(cx),
            Endpoint::Segment(p) => p.apply(cx),
            Endpoint::Rest(rm) => rm.apply(cx),
            Endpoint::QueryRecord(q) => q.apply(cx),
            Endpoint::OptionalHeader(h) => h.apply(cx),
            Endpoint::RequiredHeader(h) => h.apply(cx),
            Endpoint::ExactHeader(h) => h.apply(cx),
            Endpoint::Payload(b) => b.apply(cx),
            Endpoint::PayloadStream(b) => b.apply(cx),
            Endpoint::JustVal(j) => j.apply(cx),
            Endpoint::ConstOk(c) => c.apply(cx),
            Endpoint::ConstErr(c) => c.apply(cx),
            Endpoint::ConstResult(c) => c.apply(cx),
            Endpoint::Both(c) => c.apply(cx),
            Endpoint::Either(o) => o.apply(cx),
            Endpoint::Mapped(m) => m.apply(cx),
            Endpoint::Chained(m) => m.apply(cx),
            Endpoint::MappedOk(m) => m.apply(cx),
            Endpoint::MappedErr(m) => m.apply(cx),
            Endpoint::Aborting(m) => m.apply(cx),
            Endpoint::SkipMany(sa) => sa.apply(cx),
            Endpoint::FileServe(f) => f.apply(cx),
            Endpoint::DirServe(d) => d.apply(cx),
            Endpoint::QueryParam(p) => p.apply(cx),
        }
    }

    /// Sequences two endpoints: the right one sees the cursor the left one
    /// leaves, and the outputs are concatenated in order.
    pub fn and(self, other: Endpoint) -> (r: Endpoint)
        ensures
            r == Endpoint::Both(And { e1: Box::new(self), e2: Box::new(other) }),
    {
        Endpoint::Both(And { e1: Box::new(self), e2: Box::new(other) })
    }

    /// Tries two endpoints on independent cursor copies and keeps the more
    /// specific match; see [`apply_s`] for the tie-break.
    pub fn or(self, other: Endpoint) -> (r: Endpoint)
        ensures
            r == Endpoint::Either(Or { e1: Box::new(self), e2: Box::new(other) }),
    {
        Endpoint::Either(Or { e1: Box::new(self), e2: Box::new(other) })
    }

    /// Applies a pure transform to the output.
    pub fn map(self, f: crate::task::Transform) -> (r: Endpoint)
        ensures
            r == Endpoint::Mapped(MapAsync { endpoint: Box::new(self), f }),
    {
        Endpoint::Mapped(MapAsync { endpoint: Box::new(self), f })
    }

    /// Chains a fallible transform after the output; its failure aborts.
    pub fn and_then(self, f: crate::task::TryTransform) -> (r: Endpoint)
        ensures
            r == Endpoint::Chained(AndThen { endpoint: Box::new(self), f }),
    {
        Endpoint::Chained(AndThen { endpoint: Box::new(self), f })
    }

    /// Maps the success side of a result-valued output.
    pub fn map_ok(self, f: crate::task::ValueTransform) -> (r: Endpoint)
        ensures
            r == Endpoint::MappedOk(MapOk { endpoint: Box::new(self), f }),
    {
        Endpoint::MappedOk(MapOk { endpoint: Box::new(self), f })
    }

    /// Maps the failure side of a result-valued output.
    pub fn map_err(self, f: crate::task::ValueTransform) -> (r: Endpoint)
        ensures
            r == Endpoint::MappedErr(MapErr { endpoint: Box::new(self), f }),
    {
        Endpoint::MappedErr(MapErr { endpoint: Box::new(self), f })
    }

    /// Chains a fallible transform whose failure aborts the computation.
    pub fn try_abort(self, f: crate::task::TryTransform) -> (r: Endpoint)
        ensures
            r == Endpoint::Aborting(TryAbort { endpoint: Box::new(self), f }),
    {
        Endpoint::Aborting(TryAbort { endpoint: Box::new(self), f })
    }
}

impl Or {
    /// Applies both alternatives to independent cursor copies seeded at the
    /// same position and selects: a match beats everything, the match that
    /// consumed more segments beats the shorter one (ties go left), a
    /// malformed report beats a decline (ties go left), and two declines
    /// decline.
    pub fn apply(&self, cx: &mut Context) -> (r: MatchOutcome)
        requires
            old(cx).wf(),
        ensures
            final (cx).wf(),
            final (cx).input == old(cx).input,
            final (cx).pos >= old(cx).pos,
            apply_ok(
                Endpoint::Either(*self),
                old(cx).input@,
                old(cx).pos as int,
                final (cx).pos as int,
                r,
            ),
        decreases self,
    {
        let ghost rv = cx.input@;
        let ghost pos0 = cx.pos as int;
        let mut cx1 = Context { input: cx.input, pos: cx.pos };
        let r1 = self.e1.apply(&mut cx1);
        let mut cx2 = Context { input: cx.input, pos: cx.pos };
        let r2 = self.e2.apply(&mut cx2);
        match (r1, r2) {
            (MatchOutcome::Matched(p1), MatchOutcome::Matched(p2)) => {
                if cx2.pos > cx1.pos {
                    cx.pos = cx2.pos;
                    MatchOutcome::Matched(p2)
                } else {
                    cx.pos = cx1.pos;
                    MatchOutcome::Matched(p1)
                }
            }
            (MatchOutcome::Matched(p1), _) => {
                cx.pos = cx1.pos;
                MatchOutcome::Matched(p1)
            }
            (_, MatchOutcome::Matched(p2)) => {
                cx.pos = cx2.pos;
                MatchOutcome::Matched(p2)
            }
            (MatchOutcome::Malformed(e), _) => MatchOutcome::Malformed(e),
            (_, MatchOutcome::Malformed(e)) => MatchOutcome::Malformed(e),
            _ => MatchOutcome::Declined,
        }
    }
}

} // verus!
