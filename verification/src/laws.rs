//! The laws of the combinator algebra, stated over the models of the match
//! phase ([`apply_s`]) and of the producer phase ([`eresolve`]).

use vstd::prelude::*;

use crate::endpoint::{apply_s, eresolve, Endpoint, Or, SOut};
use crate::endpoint::and::And;
use crate::endpoints::body::Body;
use crate::endpoints::path::{match_path_s, MatchPath};
use crate::endpoints::query::Query;
use crate::error::ErrV;
use crate::request::ReqView;
use crate::task::{fatal_body_taken, missing_query_err, AV, BodyKind, PR};
use crate::generic::VV;

verus! {

broadcast use vstd::seq::group_seq_axioms;

/// A run of literal segments standing at the cursor position matches and
/// leaves the cursor after the run.
pub proof fn lemma_match_path_prefix(lits: Seq<Seq<char>>, segs: Seq<Seq<char>>, pos: int)
    requires
        0 <= pos,
        pos + lits.len() <= segs.len(),
        segs.subrange(pos, pos + lits.len() as int) == lits,
    ensures
        match_path_s(lits, segs, pos) == Some(pos + lits.len() as int),
    decreases lits.len(),
{
    if lits.len() > 0 {
        assert(segs[pos] == segs.subrange(pos, pos + lits.len() as int)[0]);
        assert(segs.subrange(pos + 1, pos + lits.len() as int) =~= lits.skip(1));
        lemma_match_path_prefix(lits.skip(1), segs, pos + 1);
    }
}

/// Without the literal run standing at the cursor position, the literal
/// matcher finds nothing.
pub proof fn lemma_match_path_no_prefix(lits: Seq<Seq<char>>, segs: Seq<Seq<char>>, pos: int)
    requires
        0 <= pos <= segs.len(),
        !(pos + lits.len() <= segs.len() && segs.subrange(pos, pos + lits.len() as int) == lits),
    ensures
        match_path_s(lits, segs, pos) is None,
    decreases lits.len(),
{
    if lits.len() == 0 {
        assert(segs.subrange(pos, pos + lits.len() as int) =~= lits);
    }
    if lits.len() > 0 {
        if pos < segs.len() && segs[pos] == lits[0] {
            if pos + 1 + lits.skip(1).len() <= segs.len() && segs.subrange(
                pos + 1,
                pos + 1 + lits.skip(1).len() as int,
            ) == lits.skip(1) {
                assert(segs.subrange(pos, pos + lits.len() as int) =~= lits) by {
                    assert forall|j: int| 0 <= j < lits.len() implies segs.subrange(
                        pos,
                        pos + lits.len() as int,
                    )[j] == lits[j] by {
                        if j > 0 {
                            assert(lits.skip(1)[j - 1] == lits[j]);
                            assert(segs.subrange(
                                pos + 1,
                                pos + 1 + lits.skip(1).len() as int,
                            )[j - 1] == segs[pos + j]);
                        }
                    }
                }
                assert(false);
            } else {
                lemma_match_path_no_prefix(lits.skip(1), segs, pos + 1);
            }
        }
    }
}

/// The path-literal law: a literal endpoint matches exactly the requests
/// whose next segments are the literal's segments, consumes precisely them,
/// and extracts nothing; on every other path it declines.
pub proof fn lemma_path_literal(mp: MatchPath, rv: ReqView, pos: int, a: AV)
    requires
        0 <= pos <= rv.segments.len(),
    ensures
        ({
            let lits = mp.segments.deep_view();
            let e = Endpoint::Path(mp);
            &&& (pos + lits.len() <= rv.segments.len() && rv.segments.subrange(
                pos,
                pos + lits.len() as int,
            ) == lits) ==> apply_s(e, rv, pos) == SOut::Matched(pos + lits.len() as int)
                && eresolve(e, rv, pos, a) == (PR::Out(Seq::<VV>::empty()), a)
            &&& !(pos + lits.len() <= rv.segments.len() && rv.segments.subrange(
                pos,
                pos + lits.len() as int,
            ) == lits) ==> apply_s(e, rv, pos) == SOut::Declined
        }),
{
    let lits = mp.segments.deep_view();
    if pos + lits.len() <= rv.segments.len() && rv.segments.subrange(
        pos,
        pos + lits.len() as int,
    ) == lits {
        lemma_match_path_prefix(lits, rv.segments, pos);
    } else {
        lemma_match_path_no_prefix(lits, rv.segments, pos);
    }
}

/// The concatenation law of sequencing: when both sides match and both
/// producers succeed, the combined output is the left tuple followed by the
/// right tuple — its arity is the sum of theirs, elements in order.
pub proof fn lemma_and_output_concat(
    c: And,
    rv: ReqView,
    pos: int,
    a: AV,
    p1: int,
    v1: Seq<VV>,
    a1: AV,
    v2: Seq<VV>,
    a2: AV,
)
    requires
        apply_s(*c.e1, rv, pos) == SOut::Matched(p1),
        eresolve(*c.e1, rv, pos, a) == (PR::Out(v1), a1),
        eresolve(*c.e2, rv, p1, a1) == (PR::Out(v2), a2),
    ensures
        eresolve(Endpoint::Both(c), rv, pos, a) == (PR::Out(v1 + v2), a2),
        (v1 + v2).len() == v1.len() + v2.len(),
        forall|i: int| 0 <= i < v1.len() ==> (v1 + v2)[i] == v1[i],
        forall|i: int| 0 <= i < v2.len() ==> (v1 + v2)[v1.len() + i] == v2[i],
{
}

/// The associativity law of sequencing: grouping three endpoints to the left
/// or to the right matches the same requests, consumes the same segments, and
/// yields the same flattened output tuple.
#[verifier::rlimit(100)]
pub proof fn lemma_and_associative(ea: Endpoint, eb: Endpoint, ec: Endpoint, rv: ReqView, pos: int, a: AV)
    ensures
        ({
            let left = Endpoint::Both(
                And {
                    e1: Box::new(
                        Endpoint::Both(And { e1: Box::new(ea), e2: Box::new(eb) }),
                    ),
                    e2: Box::new(ec),
                },
            );
            let right = Endpoint::Both(
                And {
                    e1: Box::new(ea),
                    e2: Box::new(
                        Endpoint::Both(And { e1: Box::new(eb), e2: Box::new(ec) }),
                    ),
                },
            );
            &&& apply_s(left, rv, pos) == apply_s(right, rv, pos)
            &&& (apply_s(left, rv, pos) is Matched ==> eresolve(left, rv, pos, a) == eresolve(
                right,
                rv,
                pos,
                a,
            ))
        }),
{
    let lab = Endpoint::Both(And { e1: Box::new(ea), e2: Box::new(eb) });
    let rbc = Endpoint::Both(And { e1: Box::new(eb), e2: Box::new(ec) });
    let left = Endpoint::Both(And { e1: Box::new(lab), e2: Box::new(ec) });
    let right = Endpoint::Both(And { e1: Box::new(ea), e2: Box::new(rbc) });
    match apply_s(ea, rv, pos) {
        SOut::Matched(p1) => {
            match apply_s(eb, rv, p1) {
                SOut::Matched(p2) => {
                    assert(apply_s(lab, rv, pos) == SOut::Matched(p2));
                    assert(apply_s(rbc, rv, p1) == apply_s(ec, rv, p2));
                    match apply_s(ec, rv, p2) {
                        SOut::Matched(p3) => {
                            assert(apply_s(left, rv, pos) == SOut::Matched(p3));
                            assert(apply_s(right, rv, pos) == SOut::Matched(p3));
                            let (q1, b1) = eresolve(ea, rv, pos, a);
                            match q1 {
                                PR::Out(u1) => {
                                    let (q2, b2) = eresolve(eb, rv, p1, b1);
                                    match q2 {
                                        PR::Out(u2) => {
                                            assert(eresolve(lab, rv, pos, a) == (
                                                PR::Out(u1 + u2),
                                                b2,
                                            ));
                                            let (q3, b3) = eresolve(ec, rv, p2, b2);
                                            match q3 {
                                                PR::Out(u3) => {
                                                    assert(eresolve(rbc, rv, p1, b1) == (
                                                        PR::Out(u2 + u3),
                                                        b3,
                                                    ));
                                                    assert(eresolve(left, rv, pos, a) == (
                                                        PR::Out((u1 + u2) + u3),
                                                        b3,
                                                    ));
                                                    assert(eresolve(right, rv, pos, a) == (
                                                        PR::Out(u1 + (u2 + u3)),
                                                        b3,
                                                    ));
                                                    assert((u1 + u2) + u3 =~= u1 + (u2 + u3));
                                                }
                                                _ => {
                                                    assert(eresolve(rbc, rv, p1, b1) == (q3, b3));
                                                    assert(eresolve(left, rv, pos, a) == (q3, b3));
                                                    assert(eresolve(right, rv, pos, a) == (
                                                        q3,
                                                        b3,
                                                    ));
                                                }
                                            }
                                        }
                                        _ => {
                                            assert(eresolve(lab, rv, pos, a) == (q2, b2));
                                            assert(eresolve(rbc, rv, p1, b1) == (q2, b2));
                                            assert(eresolve(left, rv, pos, a) == (q2, b2));
                                            assert(eresolve(right, rv, pos, a) == (q2, b2));
                                        }
                                    }
                                }
                                _ => {
                                    assert(eresolve(lab, rv, pos, a) == (q1, b1));
                                    assert(eresolve(left, rv, pos, a) == (q1, b1));
                                    assert(eresolve(right, rv, pos, a) == (q1, b1));
                                }
                            }
                        }
                        _ => {
                            assert(apply_s(left, rv, pos) == apply_s(ec, rv, p2));
                            assert(apply_s(right, rv, pos) == apply_s(ec, rv, p2));
                        }
                    }
                }
                _ => {
                    assert(apply_s(lab, rv, pos) == apply_s(eb, rv, p1));
                    assert(apply_s(rbc, rv, p1) == apply_s(eb, rv, p1));
                    assert(apply_s(left, rv, pos) == apply_s(eb, rv, p1));
                    assert(apply_s(right, rv, pos) == apply_s(eb, rv, p1));
                }
            }
        }
        _ => {
            assert(apply_s(left, rv, pos) == apply_s(ea, rv, pos));
            assert(apply_s(right, rv, pos) == apply_s(ea, rv, pos));
        }
    }
}

/// The specificity tie-break of alternation: when both branches match, the
/// branch that consumed more path segments wins; on equal consumption the
/// left branch wins.
pub proof fn lemma_or_prefers_more_consumed(o: Or, rv: ReqView, pos: int, a: AV, p1: int, p2: int)
    requires
        apply_s(*o.e1, rv, pos) == SOut::Matched(p1),
        apply_s(*o.e2, rv, pos) == SOut::Matched(p2),
    ensures
        p2 > p1 ==> apply_s(Endpoint::Either(o), rv, pos) == SOut::Matched(p2) && eresolve(
            Endpoint::Either(o),
            rv,
            pos,
            a,
        ) == eresolve(*o.e2, rv, pos, a),
        p2 <= p1 ==> apply_s(Endpoint::Either(o), rv, pos) == SOut::Matched(p1) && eresolve(
            Endpoint::Either(o),
            rv,
            pos,
            a,
        ) == eresolve(*o.e1, rv, pos, a),
{
}

/// The malformed-precedence law of alternation: a branch that matched
/// structurally but found the request malformed is surfaced, never silently
/// skipped in favour of a branch that merely declined.
pub proof fn lemma_or_malformed_precedence(o: Or, rv: ReqView, pos: int, ev: ErrV)
    ensures
        apply_s(*o.e1, rv, pos) == SOut::Malformed(ev) && apply_s(*o.e2, rv, pos) is Declined
            ==> apply_s(Endpoint::Either(o), rv, pos) == SOut::Malformed(ev),
        apply_s(*o.e1, rv, pos) is Declined && apply_s(*o.e2, rv, pos) == SOut::Malformed(ev)
            ==> apply_s(Endpoint::Either(o), rv, pos) == SOut::Malformed(ev),
        apply_s(*o.e1, rv, pos) is Declined && apply_s(*o.e2, rv, pos) is Declined ==> apply_s(
            Endpoint::Either(o),
            rv,
            pos,
        ) is Declined,
{
}

/// The taken-once law of the body: two body-consuming endpoints sequenced in
/// one tree still match, but once the first has extracted the body, the
/// second extraction attempt is the fatal double-extraction condition.
pub proof fn lemma_body_extraction_once(k1: BodyKind, k2: BodyKind, rv: ReqView, pos: int, a: AV)
    requires
        a.body is Some,
    ensures
        ({
            let e = Endpoint::Both(
                And {
                    e1: Box::new(Endpoint::Payload(Body { kind: k1 })),
                    e2: Box::new(Endpoint::Payload(Body { kind: k2 })),
                },
            );
            &&& apply_s(e, rv, pos) == SOut::Matched(pos)
            &&& (crate::task::body_decode(k1, a.body->Some_0) is Out ==> eresolve(e, rv, pos, a).0
                == PR::Fatal(fatal_body_taken()))
        }),
{
    let e1 = Endpoint::Payload(Body { kind: k1 });
    let e2 = Endpoint::Payload(Body { kind: k2 });
    let both = Endpoint::Both(And { e1: Box::new(e1), e2: Box::new(e2) });
    assert(apply_s(e1, rv, pos) == SOut::Matched(pos));
    assert(apply_s(e2, rv, pos) == SOut::Matched(pos));
    assert(apply_s(both, rv, pos) == SOut::Matched(pos));
    if crate::task::body_decode(k1, a.body->Some_0) is Out {
        assert(eresolve(e1, rv, pos, a) == crate::task::body_resolve(k1, a));
        let a1 = crate::task::body_resolve(k1, a).1;
        assert(crate::task::body_resolve(k1, a).0 is Out);
        assert(a1.body is None);
        assert(eresolve(e2, rv, pos, a1) == crate::task::body_resolve(k2, a1));
        assert(crate::task::body_resolve(k2, a1).0 == PR::Fatal(fatal_body_taken()));
        assert(eresolve(both, rv, pos, a).0 == PR::Fatal(fatal_body_taken()));
    }
}

/// The structural-match law of the query endpoint: it always matches and
/// consumes nothing; validation happens in the asynchronous phase, where a
/// request without a query string is a bad request — never a decline.
pub proof fn lemma_query_matches_structurally(q: Query, rv: ReqView, pos: int, a: AV)
    ensures
        apply_s(Endpoint::QueryRecord(q), rv, pos) == SOut::Matched(pos),
        a.query is None ==> eresolve(Endpoint::QueryRecord(q), rv, pos, a).0 == PR::Abort(
            missing_query_err(),
        ),
        missing_query_err().status == 400,
{
}

} // verus!
