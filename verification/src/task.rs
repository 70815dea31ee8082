//! The asynchronous phase: producers.
//!
//! A successful match hands back a [`Producer`]: a deferred computation that
//! is driven exactly once against the request's query, headers, body and the
//! file store. Driving a producer that has already resolved is a defined
//! fatal condition ("cannot poll twice"), never a silent no-op; taking the
//! request body a second time is the fatal double-extraction condition.
//!
//! The function [`presolve`] is the model of the whole phase: it maps a
//! producer and the state of the asynchronous input to the produced result
//! and the input state left behind.

use vstd::prelude::*;
use vstd::string::StringExecFns;

use crate::error::{ErrV, HttpError};
use crate::generic::{clone_values, combine, lview, outs, vview, HList, Value, VV};
use crate::lookup::{assoc_lookup, lemma_assoc_lookup_is, lemma_assoc_lookup_none};
use crate::request::{find_char, find_from, lemma_find_char_is, lemma_find_char_none, split_from, split_on, Method};

verus! {

/// The mathematical model of an [`AsyncInput`].
#[verifier::ext_equal]
pub ghost struct AV {
    pub method: Method,
    pub query: Option<Seq<char>>,
    pub headers: Seq<(Seq<char>, Seq<char>)>,
    pub body: Option<Seq<u8>>,
    pub files: Seq<(Seq<char>, Seq<u8>)>,
}

/// The narrower request handle that the asynchronous phase works on: the
/// parts of the request a producer may still read, plus the taken-once body
/// and the file store backing static-file producers.
#[derive(Debug)]
pub struct AsyncInput {
    pub method: Method,
    pub query: Option<String>,
    pub headers: Vec<(String, String)>,
    pub body: Option<Vec<u8>>,
    pub files: Vec<(String, Vec<u8>)>,
}

impl AsyncInput {
    /// The model of this input.
    pub open spec fn view(self) -> AV {
        AV {
            method: self.method,
            query: match self.query {
                Some(q) => Some(q@),
                None => None,
            },
            headers: Seq::new(
                self.headers@.len(),
                |i: int| (self.headers@[i].0@, self.headers@[i].1@),
            ),
            body: match self.body {
                Some(b) => Some(b@),
                None => None,
            },
            files: Seq::new(self.files@.len(), |i: int| (self.files@[i].0@, self.files@[i].1@)),
        }
    }

    /// Takes the request body out of the input. The body is a single-owner,
    /// taken-once resource: after this call it is gone.
    pub fn take_body(&mut self) -> (r: Option<Vec<u8>>)
        ensures
            final (self)@ == (AV { body: None, ..old(self)@ }),
            match r {
                Some(b) => old(self)@.body == Some(b@),
                None => old(self)@.body is None,
            },
    {
        let r = self.body.take();
        proof {
            assert(self@ =~= (AV { body: None, ..old(self)@ }));
        }
        r
    }
}

/// The outcome of driving a producer one step. Every step here is terminal:
/// the model has no suspension points, so a poll never returns early.
#[derive(Debug)]
pub enum PollOutcome {
    /// The producer resolved to an output tuple.
    Ready(Vec<Value>),
    /// The producer resolved to a typed error.
    Abort(HttpError),
    /// A programming-error condition: a spent producer was polled again, or
    /// the request body was extracted twice.
    Fatal(String),
}

/// The model of a produced result.
#[verifier::ext_equal]
pub ghost enum PR {
    Out(Seq<VV>),
    Abort(ErrV),
    Fatal(Seq<char>),
}

/// The message of the fatal condition raised by driving a spent producer.
pub open spec fn fatal_poll_twice() -> Seq<char> {
    "cannot poll twice"@
}

/// The message of the fatal condition raised by resolving a transform twice.
pub open spec fn fatal_resolve_twice() -> Seq<char> {
    "cannot resolve twice"@
}

/// The message of the fatal double-extraction condition.
pub open spec fn fatal_body_taken() -> Seq<char> {
    "the request body has already been taken"@
}

fn msg_poll_twice() -> (r: String)
    ensures
        r@ == fatal_poll_twice(),
{
    String::from_str("cannot poll twice")
}

fn msg_resolve_twice() -> (r: String)
    ensures
        r@ == fatal_resolve_twice(),
{
    String::from_str("cannot resolve twice")
}

fn msg_body_taken() -> (r: String)
    ensures
        r@ == fatal_body_taken(),
{
    String::from_str("the request body has already been taken")
}

// ==== transforms ====

/// A pure transform of a whole output tuple, applied by the `map` combinator.
#[derive(Debug)]
pub enum Transform {
    /// Keeps the tuple unchanged.
    Identity,
    /// Discards the tuple and yields a fixed one.
    ConstTuple(Vec<Value>),
}

impl Transform {
    /// What the transform does to a tuple model.
    pub open spec fn spec_apply(self, vs: Seq<VV>) -> Seq<VV> {
        match self {
            Transform::Identity => vs,
            Transform::ConstTuple(c) => outs(c@),
        }
    }

    /// Applies the transform to an output tuple.
    pub fn apply(&self, vs: Vec<Value>) -> (r: Vec<Value>)
        ensures
            outs(r@) == self.spec_apply(outs(vs@)),
    {
        match self {
            Transform::Identity => vs,
            Transform::ConstTuple(c) => clone_values(c),
        }
    }
}

/// A pure transform of a single value, applied inside result-valued outputs.
#[derive(Debug)]
pub enum ValueTransform {
    /// Keeps the value unchanged.
    Identity,
    /// Discards the value and yields a fixed one.
    ConstVal(Box<Value>),
}

impl ValueTransform {
    /// What the transform does to a value model.
    pub open spec fn spec_apply(self, v: VV) -> VV {
        match self {
            ValueTransform::Identity => v,
            ValueTransform::ConstVal(c) => vview(*c),
        }
    }

    /// Applies the transform to a value.
    pub fn apply_value(&self, v: Value) -> (r: Value)
        ensures
            vview(r) == self.spec_apply(vview(v)),
    {
        match self {
            ValueTransform::Identity => v,
            ValueTransform::ConstVal(c) => (**c).clone(),
        }
    }
}

/// A fallible transform of a whole output tuple, applied by the `and_then`
/// and `try_abort` combinators; its failure aborts the producer with a typed
/// error.
#[derive(Debug)]
pub enum TryTransform {
    /// Applies a pure transform; never fails.
    Pass(Transform),
    /// Rejects every tuple with the given error.
    Reject(HttpError),
}

impl TryTransform {
    /// What the transform does to a tuple model.
    pub open spec fn spec_apply(self, vs: Seq<VV>) -> Result<Seq<VV>, ErrV> {
        match self {
            TryTransform::Pass(t) => Ok(t.spec_apply(vs)),
            TryTransform::Reject(e) => Err(e@),
        }
    }

    /// Applies the transform to an output tuple.
    pub fn apply(&self, vs: Vec<Value>) -> (r: Result<Vec<Value>, HttpError>)
        ensures
            match r {
                Ok(v) => self.spec_apply(outs(vs@)) == Ok::<Seq<VV>, ErrV>(outs(v@)),
                Err(e) => self.spec_apply(outs(vs@)) == Err::<Seq<VV>, ErrV>(e@),
            },
    {
        match self {
            TryTransform::Pass(t) => Ok(t.apply(vs)),
            TryTransform::Reject(e) => Err(e.clone()),
        }
    }
}

impl Clone for Transform {
    /// A copy that transforms every tuple exactly as the original does.
    fn clone(&self) -> (r: Self)
        ensures
            forall|vs: Seq<VV>| #[trigger] r.spec_apply(vs) == self.spec_apply(vs),
    {
        match self {
            Transform::Identity => Transform::Identity,
            Transform::ConstTuple(c) => Transform::ConstTuple(clone_values(c)),
        }
    }
}

impl Clone for ValueTransform {
    /// A copy that transforms every value exactly as the original does.
    fn clone(&self) -> (r: Self)
        ensures
            forall|v: VV| #[trigger] r.spec_apply(v) == self.spec_apply(v),
    {
        match self {
            ValueTransform::Identity => ValueTransform::Identity,
            ValueTransform::ConstVal(c) => ValueTransform::ConstVal(Box::new((**c).clone())),
        }
    }
}

impl Clone for TryTransform {
    /// A copy that transforms every tuple exactly as the original does.
    fn clone(&self) -> (r: Self)
        ensures
            forall|vs: Seq<VV>| #[trigger] r.spec_apply(vs) == self.spec_apply(vs),
    {
        match self {
            TryTransform::Pass(t) => TryTransform::Pass(t.clone()),
            TryTransform::Reject(e) => TryTransform::Reject(e.clone()),
        }
    }
}

/// Maps the success side of a result-valued element, leaving everything else
/// unchanged.
pub open spec fn map_ok_elem(t: ValueTransform, v: VV) -> VV {
    match v {
        VV::ResOk(x) => VV::ResOk(Box::new(t.spec_apply(*x))),
        _ => v,
    }
}

/// Maps the failure side of a result-valued element, leaving everything else
/// unchanged.
pub open spec fn map_err_elem(t: ValueTransform, v: VV) -> VV {
    match v {
        VV::ResErr(x) => VV::ResErr(Box::new(t.spec_apply(*x))),
        _ => v,
    }
}

pub open spec fn map_ok_s(t: ValueTransform, vs: Seq<VV>) -> Seq<VV> {
    vs.map(|i: int, v: VV| map_ok_elem(t, v))
}

pub open spec fn map_err_s(t: ValueTransform, vs: Seq<VV>) -> Seq<VV> {
    vs.map(|i: int, v: VV| map_err_elem(t, v))
}

/// Applies a value transform to the success side of every result-valued
/// element of the tuple.
pub fn map_ok_values(t: &ValueTransform, vs: Vec<Value>) -> (r: Vec<Value>)
    ensures
        outs(r@) == map_ok_s(*t, outs(vs@)),
{
    let mut r: Vec<Value> = Vec::new();
    let mut i: usize = 0;
    while i < vs.len()
        invariant
            i <= vs@.len(),
            r@.len() == i,
            forall|j: int| 0 <= j < i ==> vview(#[trigger] r@[j]) == map_ok_elem(
                *t,
                vview(vs@[j]),
            ),
        decreases vs@.len() - i,
    {
        match &vs[i] {
            Value::ResOk(x) => {
                let mapped = t.apply_value((**x).clone());
                r.push(Value::ResOk(Box::new(mapped)));
            }
            other => {
                r.push(other.clone());
            }
        }
        i = i + 1;
    }
    proof {
        assert(outs(r@) =~= map_ok_s(*t, outs(vs@)));
    }
    r
}

/// Applies a value transform to the failure side of every result-valued
/// element of the tuple.
pub fn map_err_values(t: &ValueTransform, vs: Vec<Value>) -> (r: Vec<Value>)
    ensures
        outs(r@) == map_err_s(*t, outs(vs@)),
{
    let mut r: Vec<Value> = Vec::new();
    let mut i: usize = 0;
    while i < vs.len()
        invariant
            i <= vs@.len(),
            r@.len() == i,
            forall|j: int| 0 <= j < i ==> vview(#[trigger] r@[j]) == map_err_elem(
                *t,
                vview(vs@[j]),
            ),
        decreases vs@.len() - i,
    {
        match &vs[i] {
            Value::ResErr(x) => {
                let mapped = t.apply_value((**x).clone());
                r.push(Value::ResErr(Box::new(mapped)));
            }
            other => {
                r.push(other.clone());
            }
        }
        i = i + 1;
    }
    proof {
        assert(outs(r@) =~= map_err_s(*t, outs(vs@)));
    }
    r
}

// ==== the producers ====

/// An already-computed result, handed out once. Path matchers and the
/// constant endpoints return their value through this producer.
#[derive(Debug)]
pub struct ReadyFuture {
    pub value: Option<Result<Vec<Value>, HttpError>>,
}

/// The deferred validation of the query string against a list of required
/// parameter names.
#[derive(Debug)]
pub struct QueryFuture {
    pub required: Vec<String>,
}

/// The deferred read of a required header.
#[derive(Debug)]
pub struct RequiredFuture {
    pub name: String,
}

/// The deferred read of a header whose presence the match phase checked.
#[derive(Debug)]
pub struct OptionalFuture {
    pub name: String,
}

/// How the extracted body bytes are converted into a value.
#[derive(Debug, Clone, Copy, PartialEq, Eq, Structural)]
pub enum BodyKind {
    /// The body is read and discarded.
    Unit,
    /// The body is handed out as raw bytes.
    Raw,
    /// The body is decoded as UTF-8 text; bytes that are not text are a bad
    /// request.
    Text,
}

/// The deferred extraction of the request body: it takes exclusive ownership
/// of the taken-once body stream when driven.
#[derive(Debug)]
pub enum BodyTask {
    Init(BodyKind),
    Done,
}

/// The deferred open of a file: looks the path up in the file store when
/// driven; with the fallback flag set, a missing path is retried with
/// `/index.html` appended.
#[derive(Debug)]
pub struct FileFuture {
    pub state: FileState,
}

#[derive(Debug)]
pub enum FileState {
    /// The match phase already failed; the error is handed out once.
    Failed(Option<HttpError>),
    /// The path to open, and whether to fall back to an index file.
    Open(String, bool),
    Done,
}

/// The join of two producers: both must complete, left first; the outputs are
/// concatenated. The first error wins, and the left producer's error wins
/// when both would fail.
#[derive(Debug)]
pub struct AndFuture {
    pub f1: Box<Producer>,
    pub f2: Box<Producer>,
}

/// The chaining state machine of `and_then`: the inner producer's output is
/// fed to a fallible transform whose failure aborts the computation.
#[derive(Debug)]
pub enum Chain {
    First(Producer, TryTransform),
    Done,
}

impl Chain {
    /// Starts a chain in its first stage.
    pub fn new(a: Producer, c: TryTransform) -> (r: Chain)
        ensures
            r == Chain::First(a, c),
    {
        Chain::First(a, c)
    }
}

/// The chaining state machine of `map`: the inner producer's output is fed to
/// a pure transform.
#[derive(Debug)]
pub enum MapAsyncTask {
    First(Producer, Transform),
    Done,
}

/// The deferred mapping of the success side of a result-valued output. The
/// transform is consumed on resolution; resolving twice is fatal.
#[derive(Debug)]
pub struct MapOkOutcome {
    pub outcome: Producer,
    pub f: Option<ValueTransform>,
}

/// The deferred mapping of the failure side of a result-valued output. The
/// transform is consumed on resolution; resolving twice is fatal.
#[derive(Debug)]
pub struct MapErrOutcome {
    pub outcome: Producer,
    pub f: Option<ValueTransform>,
}

/// The deferred application of a fallible transform whose failure aborts the
/// whole computation. The transform is consumed on resolution.
#[derive(Debug)]
pub struct TryAbortOutcome {
    pub outcome: Producer,
    pub f: Option<TryTransform>,
}

/// A deferred computation created by a successful match, resolved exactly
/// once.
#[derive(Debug)]
pub enum Producer {
    Ready(ReadyFuture),
    Query(QueryFuture),
    HeaderRequired(RequiredFuture),
    HeaderOptional(OptionalFuture),
    Body(BodyTask),
    File(FileFuture),
    Join(Box<AndFuture>),
    Chain(Box<Chain>),
    MapAsync(Box<MapAsyncTask>),
    MapOk(Box<MapOkOutcome>),
    MapErr(Box<MapErrOutcome>),
    TryAbort(Box<TryAbortOutcome>),
}

// ==== leaf resolution models ====

/// The key of one `key=value` query pair; a pair without `'='` is all key.
pub open spec fn query_pair_key(p: Seq<char>) -> Seq<char> {
    let i = find_char(p, '=');
    if 0 <= i && i < p.len() {
        p.take(i)
    } else {
        p
    }
}

/// The value of one `key=value` query pair; a pair without `'='` has the
/// empty value.
pub open spec fn query_pair_value(p: Seq<char>) -> Seq<char> {
    let i = find_char(p, '=');
    if 0 <= i && i < p.len() {
        p.skip(i + 1)
    } else {
        Seq::empty()
    }
}

/// The key-value pairs of a query string: `'&'`-separated `key=value` pairs.
pub open spec fn query_pairs(q: Seq<char>) -> Seq<(Seq<char>, Seq<char>)> {
    split_on(q, '&').map(|i: int, p: Seq<char>| (query_pair_key(p), query_pair_value(p)))
}

/// The value of the first query pair with the given key, or nothing.
pub open spec fn query_lookup(q: Seq<char>, key: Seq<char>) -> Option<Seq<char>> {
    assoc_lookup(query_pairs(q), key)
}

/// The error reported when the request has no query string at all.
pub open spec fn missing_query_err() -> ErrV {
    ErrV { status: 400, msg: "missing query string"@ }
}

/// The error reported when a required query parameter is absent.
pub open spec fn missing_param_err(name: Seq<char>) -> ErrV {
    ErrV { status: 400, msg: "missing query parameter: "@ + name }
}

/// The error reported when a required header is absent.
pub open spec fn missing_header_err(name: Seq<char>) -> ErrV {
    ErrV { status: 400, msg: "missing header: "@ + name }
}

/// The error reported when a file is not in the store.
pub open spec fn file_not_found_err() -> ErrV {
    ErrV { status: 404, msg: "file not found"@ }
}

/// Collects the values of the required query parameters, in declaration
/// order; the first missing parameter aborts with a bad-request error.
pub open spec fn query_collect(required: Seq<Seq<char>>, q: Seq<char>) -> PR
    decreases required.len(),
{
    if required.len() == 0 {
        PR::Out(Seq::empty())
    } else {
        match query_lookup(q, required[0]) {
            None => PR::Abort(missing_param_err(required[0])),
            Some(v) => match query_collect(required.skip(1), q) {
                PR::Out(rest) => PR::Out(seq![VV::Str(v)] + rest),
                other => other,
            },
        }
    }
}

/// What a query producer resolves to: a request without a query string is a
/// bad request, never a decline — the match phase has already accepted it.
pub open spec fn query_resolve(required: Seq<Seq<char>>, a: AV) -> PR {
    match a.query {
        None => PR::Abort(missing_query_err()),
        Some(q) => query_collect(required, q),
    }
}

/// What a required-header producer resolves to.
pub open spec fn header_required_resolve(name: Seq<char>, a: AV) -> PR {
    match assoc_lookup(a.headers, name) {
        Some(v) => PR::Out(seq![VV::Str(v)]),
        None => PR::Abort(missing_header_err(name)),
    }
}

/// What a checked-header producer resolves to. The match phase only creates
/// it after seeing the header, so the absent case is the same bad request as
/// for a required header.
pub open spec fn header_optional_resolve(name: Seq<char>, a: AV) -> PR {
    header_required_resolve(name, a)
}

/// What a body producer does to the asynchronous input: it takes the
/// taken-once body and converts it; a body already taken is the fatal
/// double-extraction condition.
pub open spec fn body_resolve(kind: BodyKind, a: AV) -> (PR, AV) {
    match a.body {
        None => (PR::Fatal(fatal_body_taken()), a),
        Some(b) => (body_decode(kind, b), AV { body: None, ..a }),
    }
}

/// The error reported when the body bytes are not text.
pub open spec fn body_not_text_err() -> ErrV {
    ErrV { status: 400, msg: "the request body is not text"@ }
}

/// What the extracted body bytes convert to.
pub open spec fn body_decode(kind: BodyKind, b: Seq<u8>) -> PR {
    match kind {
        BodyKind::Unit => PR::Out(seq![VV::Unit]),
        BodyKind::Raw => PR::Out(seq![VV::Bytes(b)]),
        BodyKind::Text => if vstd::utf8::valid_utf8(b) {
            PR::Out(seq![VV::Str(vstd::utf8::decode_utf8(b))])
        } else {
            PR::Abort(body_not_text_err())
        },
    }
}

/// Relies on `String::from_utf8`: it succeeds exactly on valid UTF-8 bytes
/// and decodes them, so the text's encoding is the input again.
#[verifier::external_body]
fn string_from_utf8(v: Vec<u8>) -> (r: Option<String>)
    ensures
        r is Some <==> vstd::utf8::valid_utf8(v@),
        r matches Some(s) ==> s@ == vstd::utf8::decode_utf8(v@),
{
    match String::from_utf8(v) {
        Ok(s) => Some(s),
        Err(_) => None,
    }
}

/// The single value produced for a served file: its path and its contents.
pub open spec fn file_value(path: Seq<char>, b: Seq<u8>) -> Seq<VV> {
    seq![VV::Tuple(seq![VV::Str(path), VV::Bytes(b)])]
}

/// What a file producer resolves to: the stored contents of the path, of the
/// path's index file when the fallback is allowed, or a not-found error.
pub open spec fn file_resolve(path: Seq<char>, fallback: bool, a: AV) -> PR {
    match assoc_lookup(a.files, path) {
        Some(b) => PR::Out(file_value(path, b)),
        None => if fallback {
            match assoc_lookup(a.files, path + "/index.html"@) {
                Some(b) => PR::Out(file_value(path + "/index.html"@, b)),
                None => PR::Abort(file_not_found_err()),
            }
        } else {
            PR::Abort(file_not_found_err())
        },
    }
}

// ==== the model of the asynchronous phase ====

/// What driving a producer to completion yields, and the asynchronous-input
/// state it leaves behind. Resolution order is left to right; a spent
/// producer yields the fatal condition.
pub open spec fn presolve(p: Producer, a: AV) -> (PR, AV)
    decreases p,
{
    match p {
        Producer::Ready(rf) => (
            match rf.value {
                Some(res) => match res {
                    Ok(v) => PR::Out(outs(v@)),
                    Err(e) => PR::Abort(e@),
                },
                None => PR::Fatal(fatal_poll_twice()),
            },
            a,
        ),
        Producer::Query(qf) => (query_resolve(qf.required.deep_view(), a), a),
        Producer::HeaderRequired(f) => (header_required_resolve(f.name@, a), a),
        Producer::HeaderOptional(f) => (header_optional_resolve(f.name@, a), a),
        Producer::Body(bt) => match bt {
            BodyTask::Init(kind) => body_resolve(kind, a),
            BodyTask::Done => (PR::Fatal(fatal_poll_twice()), a),
        },
        Producer::File(ff) => (
            match ff.state {
                FileState::Failed(e) => match e {
                    Some(err) => PR::Abort(err@),
                    None => PR::Fatal(fatal_poll_twice()),
                },
                FileState::Open(path, fb) => file_resolve(path@, fb, a),
                FileState::Done => PR::Fatal(fatal_poll_twice()),
            },
            a,
        ),
        Producer::Join(j) => {
            let (r1, a1) = presolve(*j.f1, a);
            match r1 {
                PR::Out(v1) => {
                    let (r2, a2) = presolve(*j.f2, a1);
                    match r2 {
                        PR::Out(v2) => (PR::Out(v1 + v2), a2),
                        other => (other, a2),
                    }
                }
                other => (other, a1),
            }
        },
        Producer::Chain(c) => match *c {
            Chain::First(inner, t) => {
                let (r, a1) = presolve(inner, a);
                match r {
                    PR::Out(v) => match t.spec_apply(v) {
                        Ok(v2) => (PR::Out(v2), a1),
                        Err(e) => (PR::Abort(e), a1),
                    },
                    other => (other, a1),
                }
            }
            Chain::Done => (PR::Fatal(fatal_poll_twice()), a),
        },
        Producer::MapAsync(m) => match *m {
            MapAsyncTask::First(inner, t) => {
                let (r, a1) = presolve(inner, a);
                match r {
                    PR::Out(v) => (PR::Out(t.spec_apply(v)), a1),
                    other => (other, a1),
                }
            }
            MapAsyncTask::Done => (PR::Fatal(fatal_poll_twice()), a),
        },
        Producer::MapOk(m) => match m.f {
            None => (PR::Fatal(fatal_resolve_twice()), a),
            Some(t) => {
                let (r, a1) = presolve(m.outcome, a);
                match r {
                    PR::Out(v) => (PR::Out(map_ok_s(t, v)), a1),
                    other => (other, a1),
                }
            }
        },
        Producer::MapErr(m) => match m.f {
            None => (PR::Fatal(fatal_resolve_twice()), a),
            Some(t) => {
                let (r, a1) = presolve(m.outcome, a);
                match r {
                    PR::Out(v) => (PR::Out(map_err_s(t, v)), a1),
                    other => (other, a1),
                }
            }
        },
        Producer::TryAbort(m) => match m.f {
            None => (PR::Fatal(fatal_resolve_twice()), a),
            Some(t) => {
                let (r, a1) = presolve(m.outcome, a);
                match r {
                    PR::Out(v) => match t.spec_apply(v) {
                        Ok(v2) => (PR::Out(v2), a1),
                        Err(e) => (PR::Abort(e), a1),
                    },
                    other => (other, a1),
                }
            }
        },
    }
}

// ==== driving producers ====

/// The contract of one driving step: the outcome and the input state left
/// behind are what [`presolve`] says of the producer before the step, and the
/// producer left behind is spent — driving it again is fatal and changes
/// nothing.
pub open spec fn poll_ok(
    pre_p: Producer,
    pre_a: AV,
    post_p: Producer,
    post_a: AV,
    r: PollOutcome,
) -> bool {
    let pr = presolve(pre_p, pre_a).0;
    let a2 = presolve(pre_p, pre_a).1;
    &&& post_a == a2
    &&& match r {
        PollOutcome::Ready(v) => pr == PR::Out(outs(v@)),
        PollOutcome::Abort(e) => pr == PR::Abort(e@),
        PollOutcome::Fatal(m) => pr == PR::Fatal(m@),
    }
    &&& forall|b: AV| (#[trigger] presolve(post_p, b)).0 is Fatal && presolve(post_p, b).1 == b
}

/// A producer that is already spent: driving it reports the fatal condition.
fn spent_producer() -> (r: Producer)
    ensures
        r == Producer::Ready(ReadyFuture { value: None }),
{
    Producer::Ready(ReadyFuture { value: None })
}

/// Looks a path up in the file store, handing back a copy of the contents.
fn lookup_file(files: &Vec<(String, Vec<u8>)>, path: &String) -> (r: Option<Vec<u8>>)
    ensures
        match r {
            Some(b) => assoc_lookup(
                Seq::new(files@.len(), |i: int| (files@[i].0@, files@[i].1@)),
                path@,
            ) == Some(b@),
            None => assoc_lookup(
                Seq::new(files@.len(), |i: int| (files@[i].0@, files@[i].1@)),
                path@,
            ) is None,
        },
{
    let ghost entries = Seq::new(files@.len(), |i: int| (files@[i].0@, files@[i].1@));
    let mut i: usize = 0;
    while i < files.len()
        invariant
            i <= files@.len(),
            entries == Seq::new(files@.len(), |k: int| (files@[k].0@, files@[k].1@)),
            forall|j: int| 0 <= j < i ==> (#[trigger] entries[j]).0 != path@,
        decreases files@.len() - i,
    {
        proof {
            assert(entries[i as int] == (files@[i as int].0@, files@[i as int].1@));
        }
        if files[i].0 == *path {
            let b = files[i].1.clone();
            proof {
                lemma_assoc_lookup_is(entries, path@, i as int);
            }
            return Some(b);
        }
        i = i + 1;
    }
    proof {
        lemma_assoc_lookup_none(entries, path@);
    }
    None
}

/// Looks a header up in a header list, handing back a copy of the value.
pub fn lookup_header(headers: &Vec<(String, String)>, name: &String) -> (r: Option<String>)
    ensures
        match r {
            Some(v) => assoc_lookup(
                Seq::new(headers@.len(), |i: int| (headers@[i].0@, headers@[i].1@)),
                name@,
            ) == Some(v@),
            None => assoc_lookup(
                Seq::new(headers@.len(), |i: int| (headers@[i].0@, headers@[i].1@)),
                name@,
            ) is None,
        },
{
    let ghost entries = Seq::new(headers@.len(), |i: int| (headers@[i].0@, headers@[i].1@));
    let mut i: usize = 0;
    while i < headers.len()
        invariant
            i <= headers@.len(),
            entries == Seq::new(headers@.len(), |k: int| (headers@[k].0@, headers@[k].1@)),
            forall|j: int| 0 <= j < i ==> (#[trigger] entries[j]).0 != name@,
        decreases headers@.len() - i,
    {
        proof {
            assert(entries[i as int] == (headers@[i as int].0@, headers@[i as int].1@));
        }
        if headers[i].0 == *name {
            let v = headers[i].1.clone();
            proof {
                lemma_assoc_lookup_is(entries, name@, i as int);
            }
            return Some(v);
        }
        i = i + 1;
    }
    proof {
        lemma_assoc_lookup_none(entries, name@);
    }
    None
}

/// Looks a key up among the `'&'`-separated `key=value` pairs of a query
/// string.
pub fn lookup_query(q: &str, key: &String) -> (r: Option<String>)
    ensures
        match r {
            Some(v) => query_lookup(q@, key@) == Some(v@),
            None => query_lookup(q@, key@) is None,
        },
{
    let pairs = split_from(q, '&', 0);
    proof {
        assert(q@.skip(0) =~= q@);
    }
    let ghost entries = query_pairs(q@);
    let mut i: usize = 0;
    while i < pairs.len()
        invariant
            i <= pairs@.len(),
            pairs.deep_view() == split_on(q@, '&'),
            entries == query_pairs(q@),
            forall|j: int| 0 <= j < i ==> (#[trigger] entries[j]).0 != key@,
        decreases pairs@.len() - i,
    {
        let pair = &pairs[i];
        let ghost pv = pair@;
        proof {
            assert(pairs.deep_view()[i as int] == pairs@[i as int]@);
            assert(entries[i as int] == (query_pair_key(pv), query_pair_value(pv)));
        }
        let n = pair.as_str().unicode_len();
        let (k, v) = match find_from(pair.as_str(), '=', 0) {
            Some(j) => {
                proof {
                    lemma_find_char_is(pv, '=', j as int);
                    assert(pv.take(j as int) =~= pv.subrange(0, j as int));
                    assert(pv.skip(j + 1) =~= pv.subrange(j + 1, pv.len() as int));
                }
                (
                    pair.as_str().substring_char(0, j).to_owned(),
                    pair.as_str().substring_char(j + 1, n).to_owned(),
                )
            }
            None => {
                proof {
                    lemma_find_char_none(pv, '=');
                }
                (pair.clone(), String::new())
            }
        };
        proof {
            assert(k@ == query_pair_key(pv));
            assert(v@ == query_pair_value(pv));
        }
        if k == *key {
            proof {
                lemma_assoc_lookup_is(entries, key@, i as int);
            }
            return Some(v);
        }
        i = i + 1;
    }
    proof {
        lemma_assoc_lookup_none(entries, key@);
    }
    None
}

/// Collects the required query parameters starting at index `i`, in order.
fn collect_query(required: &Vec<String>, i: usize, q: &str) -> (r: Result<Vec<Value>, HttpError>)
    requires
        i <= required@.len(),
    ensures
        match r {
            Ok(v) => query_collect(required.deep_view().skip(i as int), q@) == PR::Out(outs(v@)),
            Err(e) => query_collect(required.deep_view().skip(i as int), q@) == PR::Abort(e@),
        },
    decreases required@.len() - i,
{
    let ghost req = required.deep_view().skip(i as int);
    if i == required.len() {
        let v: Vec<Value> = Vec::new();
        proof {
            assert(req =~= Seq::<Seq<char>>::empty());
            assert(outs(v@) =~= Seq::<VV>::empty());
        }
        Ok(v)
    } else {
        proof {
            assert(req[0] == required@[i as int]@);
        }
        match lookup_query(q, &required[i]) {
            None => {
                let msg = String::from_str("missing query parameter: ").concat(
                    required[i].as_str(),
                );
                Err(HttpError::bad_request(msg))
            }
            Some(v) => {
                proof {
                    assert(req.skip(1) =~= required.deep_view().skip(i + 1));
                }
                let mut rest = collect_query(required, i + 1, q)?;
                let ghost rest_snap = rest@;
                rest.insert(0, Value::Str(v));
                proof {
                    assert(outs(rest@) =~= seq![VV::Str(v@)] + outs(rest_snap));
                }
                Ok(rest)
            }
        }
    }
}

impl QueryFuture {
    /// Validates the query string against the required parameter names: a
    /// missing query string or a missing parameter is a bad request.
    pub fn poll(&self, a: &AsyncInput) -> (r: PollOutcome)
        ensures
            match r {
                PollOutcome::Ready(v) => query_resolve(self.required.deep_view(), a@) == PR::Out(
                    outs(v@),
                ),
                PollOutcome::Abort(e) => query_resolve(self.required.deep_view(), a@) == PR::Abort(
                    e@,
                ),
                PollOutcome::Fatal(m) => false,
            },
    {
        match &a.query {
            None => PollOutcome::Abort(
                HttpError::bad_request(String::from_str("missing query string")),
            ),
            Some(q) => {
                proof {
                    assert(self.required.deep_view().skip(0) =~= self.required.deep_view());
                }
                match collect_query(&self.required, 0, q.as_str()) {
                    Ok(v) => PollOutcome::Ready(v),
                    Err(e) => PollOutcome::Abort(e),
                }
            }
        }
    }
}

impl RequiredFuture {
    /// Reads the header, or reports a bad request when it is absent.
    pub fn poll(&self, a: &AsyncInput) -> (r: PollOutcome)
        ensures
            match r {
                PollOutcome::Ready(v) => header_required_resolve(self.name@, a@) == PR::Out(
                    outs(v@),
                ),
                PollOutcome::Abort(e) => header_required_resolve(self.name@, a@) == PR::Abort(e@),
                PollOutcome::Fatal(m) => false,
            },
    {
        match lookup_header(&a.headers, &self.name) {
            Some(v) => {
                let mut out: Vec<Value> = Vec::new();
                out.push(Value::Str(v));
                proof {
                    assert(outs(out@) =~= seq![VV::Str(assoc_lookup(a@.headers, self.name@)->Some_0)]);
                }
                PollOutcome::Ready(out)
            }
            None => {
                let msg = String::from_str("missing header: ").concat(self.name.as_str());
                PollOutcome::Abort(HttpError::bad_request(msg))
            }
        }
    }
}

impl BodyTask {
    /// Takes exclusive ownership of the request body and converts it. Taking
    /// an already-taken body, or driving the task again, is fatal.
    pub fn poll_task(&mut self, a: &mut AsyncInput) -> (r: PollOutcome)
        ensures
            poll_ok(
                Producer::Body(*old(self)),
                old(a)@,
                Producer::Body(*final (self)),
                final (a)@,
                r,
            ),
    {
        match self {
            BodyTask::Init(kind) => {
                let k = *kind;
                let body = a.take_body();
                *self = BodyTask::Done;
                match body {
                    None => PollOutcome::Fatal(msg_body_taken()),
                    Some(b) => match k {
                        BodyKind::Unit => {
                            let mut out: Vec<Value> = Vec::new();
                            out.push(Value::Unit);
                            proof {
                                assert(outs(out@) =~= seq![VV::Unit]);
                            }
                            PollOutcome::Ready(out)
                        }
                        BodyKind::Raw => {
                            let ghost bv = b@;
                            let mut out: Vec<Value> = Vec::new();
                            out.push(Value::Bytes(b));
                            proof {
                                assert(outs(out@) =~= seq![VV::Bytes(bv)]);
                            }
                            PollOutcome::Ready(out)
                        }
                        BodyKind::Text => {
                            let ghost bv = b@;
                            match string_from_utf8(b) {
                                Some(text) => {
                                    let ghost tv = text@;
                                    let mut out: Vec<Value> = Vec::new();
                                    out.push(Value::Str(text));
                                    proof {
                                        assert(outs(out@) =~= seq![VV::Str(tv)]);
                                    }
                                    PollOutcome::Ready(out)
                                }
                                None => PollOutcome::Abort(
                                    HttpError::bad_request(
                                        String::from_str("the request body is not text"),
                                    ),
                                ),
                            }
                        }
                    },
                }
            }
            BodyTask::Done => PollOutcome::Fatal(msg_poll_twice()),
        }
    }
}

impl FileFuture {
    /// Serves the stored contents of the path, falling back to its index file
    /// where allowed, or hands out the error recorded by the match phase.
    pub fn poll(&mut self, a: &AsyncInput) -> (r: PollOutcome)
        ensures
            poll_ok(Producer::File(*old(self)), a@, Producer::File(*final (self)), a@, r),
    {
        match &self.state {
            FileState::Failed(opt) => match opt {
                Some(e) => {
                    let err = e.clone();
                    self.state = FileState::Failed(None);
                    PollOutcome::Abort(err)
                }
                None => PollOutcome::Fatal(msg_poll_twice()),
            },
            FileState::Open(path, fallback) => {
                let p = path.clone();
                let fb = *fallback;
                self.state = FileState::Done;
                match lookup_file(&a.files, &p) {
                    Some(b) => PollOutcome::Ready(make_file_value(p, b)),
                    None => {
                        if fb {
                            let indexed = p.concat("/index.html");
                            match lookup_file(&a.files, &indexed) {
                                Some(b) => PollOutcome::Ready(make_file_value(indexed, b)),
                                None => PollOutcome::Abort(
                                    HttpError::not_found(String::from_str("file not found")),
                                ),
                            }
                        } else {
                            PollOutcome::Abort(
                                HttpError::not_found(String::from_str("file not found")),
                            )
                        }
                    }
                }
            }
            FileState::Done => PollOutcome::Fatal(msg_poll_twice()),
        }
    }
}

/// Builds the output tuple of a served file: its path paired with its
/// contents.
fn make_file_value(path: String, b: Vec<u8>) -> (r: Vec<Value>)
    ensures
        outs(r@) == file_value(path@, b@),
{
    let ghost pv = path@;
    let ghost bv = b@;
    let inner = HList::Cons(
        Value::Str(path),
        Box::new(HList::Cons(Value::Bytes(b), Box::new(HList::Nil))),
    );
    let ghost li = lview(inner);
    let mut out: Vec<Value> = Vec::new();
    out.push(Value::Tuple(Box::new(inner)));
    proof {
        reveal_with_fuel(lview, 3);
        assert(li =~= seq![VV::Str(pv), VV::Bytes(bv)]);
        assert(outs(out@) =~= file_value(pv, bv));
    }
    out
}

impl OptionalFuture {
    /// Reads the header whose presence the match phase already checked.
    pub fn poll(&self, a: &AsyncInput) -> (r: PollOutcome)
        ensures
            match r {
                PollOutcome::Ready(v) => header_optional_resolve(self.name@, a@) == PR::Out(
                    outs(v@),
                ),
                PollOutcome::Abort(e) => header_optional_resolve(self.name@, a@) == PR::Abort(e@),
                PollOutcome::Fatal(m) => false,
            },
    {
        match lookup_header(&a.headers, &self.name) {
            Some(v) => {
                let mut out: Vec<Value> = Vec::new();
                out.push(Value::Str(v));
                proof {
                    assert(outs(out@) =~= seq![
                        VV::Str(assoc_lookup(a@.headers, self.name@)->Some_0),
                    ]);
                }
                PollOutcome::Ready(out)
            }
            None => {
                let msg = String::from_str("missing header: ").concat(self.name.as_str());
                PollOutcome::Abort(HttpError::bad_request(msg))
            }
        }
    }
}

impl AndFuture {
    /// Drives the left producer, then the right one, and concatenates their
    /// outputs; the first error wins, the left producer's error first.
    pub fn poll(self, a: &mut AsyncInput) -> (r: (AndFuture, PollOutcome))
        ensures
            poll_ok(
                Producer::Join(Box::new(self)),
                old(a)@,
                Producer::Join(Box::new(r.0)),
                final (a)@,
                r.1,
            ),
        decreases self,
    {
        let ghost s = self;
        let ghost a0 = a@;
        let AndFuture { f1, f2 } = self;
        let ghost p1 = *f1;
        let ghost p2 = *f2;
        let (nf1, r1) = (*f1).poll_step(a);
        let ghost a1 = a@;
        match r1 {
            PollOutcome::Ready(v1) => {
                let ghost v1s = v1@;
                let (nf2, r2) = (*f2).poll_step(a);
                let ghost a2 = a@;
                let nj = AndFuture { f1: Box::new(nf1), f2: Box::new(nf2) };
                let ghost njg = nj;
                proof {
                    assert(presolve(p1, a0) == (PR::Out(outs(v1s)), a1));
                    assert(presolve(Producer::Join(Box::new(s)), a0) == (
                        match presolve(p2, a1).0 {
                            PR::Out(v2x) => PR::Out(outs(v1s) + v2x),
                            other => other,
                        },
                        presolve(p2, a1).1,
                    ));
                    assert(presolve(Producer::Join(Box::new(s)), a0).1 == a2);
                    assert forall|b: AV| (#[trigger] presolve(
                        Producer::Join(Box::new(njg)),
                        b,
                    )).0 is Fatal && presolve(Producer::Join(Box::new(njg)), b).1 == b by {
                        assert(presolve(*njg.f1, b).0 is Fatal);
                        assert(presolve(*njg.f1, b).1 == b);
                    }
                }
                match r2 {
                    PollOutcome::Ready(v2) => {
                        let ghost v2s = v2@;
                        let out = combine(v1, v2);
                        proof {
                            assert(outs(out@) == outs(v1s) + outs(v2s));
                        }
                        (nj, PollOutcome::Ready(out))
                    }
                    other => (nj, other),
                }
            }
            other => {
                let na = AndFuture { f1: Box::new(nf1), f2 };
                let ghost nag = na;
                proof {
                    assert(presolve(Producer::Join(Box::new(s)), a0).0 == presolve(p1, a0).0);
                    assert(presolve(Producer::Join(Box::new(s)), a0).1 == a1);
                    assert forall|b: AV| (#[trigger] presolve(
                        Producer::Join(Box::new(nag)),
                        b,
                    )).0 is Fatal && presolve(Producer::Join(Box::new(nag)), b).1 == b by {
                        assert(presolve(*nag.f1, b).0 is Fatal);
                        assert(presolve(*nag.f1, b).1 == b);
                    }
                }
                (na, other)
            }
        }
    }
}

impl Chain {
    /// Drives the inner producer and feeds its output through the fallible
    /// transform; a failing transform aborts with its error.
    pub fn poll(self, a: &mut AsyncInput) -> (r: (Chain, PollOutcome))
        ensures
            poll_ok(
                Producer::Chain(Box::new(self)),
                old(a)@,
                Producer::Chain(Box::new(r.0)),
                final (a)@,
                r.1,
            ),
        decreases self,
    {
        match self {
            Chain::First(inner, t) => {
                let (_spent, r1) = inner.poll_step(a);
                match r1 {
                    PollOutcome::Ready(v) => match t.apply(v) {
                        Ok(v2) => (Chain::Done, PollOutcome::Ready(v2)),
                        Err(e) => (Chain::Done, PollOutcome::Abort(e)),
                    },
                    other => (Chain::Done, other),
                }
            }
            Chain::Done => (Chain::Done, PollOutcome::Fatal(msg_poll_twice())),
        }
    }
}

impl MapAsyncTask {
    /// Drives the inner producer and feeds its output through the pure
    /// transform.
    pub fn poll_task(self, a: &mut AsyncInput) -> (r: (MapAsyncTask, PollOutcome))
        ensures
            poll_ok(
                Producer::MapAsync(Box::new(self)),
                old(a)@,
                Producer::MapAsync(Box::new(r.0)),
                final (a)@,
                r.1,
            ),
        decreases self,
    {
        match self {
            MapAsyncTask::First(inner, t) => {
                let (_spent, r1) = inner.poll_step(a);
                match r1 {
                    PollOutcome::Ready(v) => (MapAsyncTask::Done, PollOutcome::Ready(t.apply(v))),
                    other => (MapAsyncTask::Done, other),
                }
            }
            MapAsyncTask::Done => (MapAsyncTask::Done, PollOutcome::Fatal(msg_poll_twice())),
        }
    }
}

impl MapOkOutcome {
    /// Drives the inner producer and maps the success side of its
    /// result-valued output. The transform is consumed: resolving a second
    /// time is fatal.
    pub fn poll_outcome(self, a: &mut AsyncInput) -> (r: (MapOkOutcome, PollOutcome))
        ensures
            poll_ok(
                Producer::MapOk(Box::new(self)),
                old(a)@,
                Producer::MapOk(Box::new(r.0)),
                final (a)@,
                r.1,
            ),
        decreases self,
    {
        let MapOkOutcome { outcome, f } = self;
        match f {
            None => (
                MapOkOutcome { outcome, f: None },
                PollOutcome::Fatal(msg_resolve_twice()),
            ),
            Some(t) => {
                let (no, r1) = outcome.poll_step(a);
                let out = match r1 {
                    PollOutcome::Ready(v) => PollOutcome::Ready(map_ok_values(&t, v)),
                    other => other,
                };
                (MapOkOutcome { outcome: no, f: None }, out)
            }
        }
    }
}

impl MapErrOutcome {
    /// Drives the inner producer and maps the failure side of its
    /// result-valued output. The transform is consumed: resolving a second
    /// time is fatal.
    pub fn poll_outcome(self, a: &mut AsyncInput) -> (r: (MapErrOutcome, PollOutcome))
        ensures
            poll_ok(
                Producer::MapErr(Box::new(self)),
                old(a)@,
                Producer::MapErr(Box::new(r.0)),
                final (a)@,
                r.1,
            ),
        decreases self,
    {
        let MapErrOutcome { outcome, f } = self;
        match f {
            None => (
                MapErrOutcome { outcome, f: None },
                PollOutcome::Fatal(msg_resolve_twice()),
            ),
            Some(t) => {
                let (no, r1) = outcome.poll_step(a);
                let out = match r1 {
                    PollOutcome::Ready(v) => PollOutcome::Ready(map_err_values(&t, v)),
                    other => other,
                };
                (MapErrOutcome { outcome: no, f: None }, out)
            }
        }
    }
}

impl TryAbortOutcome {
    /// Drives the inner producer and feeds its output through the fallible
    /// transform; a failing transform aborts the whole computation. The
    /// transform is consumed: resolving a second time is fatal.
    pub fn poll_outcome(self, a: &mut AsyncInput) -> (r: (TryAbortOutcome, PollOutcome))
        ensures
            poll_ok(
                Producer::TryAbort(Box::new(self)),
                old(a)@,
                Producer::TryAbort(Box::new(r.0)),
                final (a)@,
                r.1,
            ),
        decreases self,
    {
        let TryAbortOutcome { outcome, f } = self;
        match f {
            None => (
                TryAbortOutcome { outcome, f: None },
                PollOutcome::Fatal(msg_resolve_twice()),
            ),
            Some(t) => {
                let (no, r1) = outcome.poll_step(a);
                let out = match r1 {
                    PollOutcome::Ready(v) => match t.apply(v) {
                        Ok(v2) => PollOutcome::Ready(v2),
                        Err(e) => PollOutcome::Abort(e),
                    },
                    other => other,
                };
                (TryAbortOutcome { outcome: no, f: None }, out)
            }
        }
    }
}

impl Producer {
    /// Drives the producer to completion against the asynchronous input. The
    /// producer handed back is spent: driving it again reports the fatal
    /// condition and leaves the input unchanged.
    pub fn poll_step(self, a: &mut AsyncInput) -> (r: (Producer, PollOutcome))
        ensures
            poll_ok(self, old(a)@, r.0, final (a)@, r.1),
        decreases self,
    {
        match self {
            Producer::Ready(mut rf) => {
                let out = match rf.value.take() {
                    Some(res) => match res {
                        Ok(v) => PollOutcome::Ready(v),
                        Err(e) => PollOutcome::Abort(e),
                    },
                    None => PollOutcome::Fatal(msg_poll_twice()),
                };
                (Producer::Ready(rf), out)
            }
            Producer::Query(qf) => {
                let out = qf.poll(a);
                (spent_producer(), out)
            }
            Producer::HeaderRequired(f) => {
                let out = f.poll(a);
                (spent_producer(), out)
            }
            Producer::HeaderOptional(f) => {
                let out = f.poll(a);
                (spent_producer(), out)
            }
            Producer::Body(mut bt) => {
                let out = bt.poll_task(a);
                (Producer::Body(bt), out)
            }
            Producer::File(mut ff) => {
                let out = ff.poll(a);
                (Producer::File(ff), out)
            }
            Producer::Join(j) => {
                let (nj, out) = (*j).poll(a);
                (Producer::Join(Box::new(nj)), out)
            }
            Producer::Chain(c) => {
                let (nc, out) = (*c).poll(a);
                (Producer::Chain(Box::new(nc)), out)
            }
            Producer::MapAsync(m) => {
                let (nm, out) = (*m).poll_task(a);
                (Producer::MapAsync(Box::new(nm)), out)
            }
            Producer::MapOk(m) => {
                let (nm, out) = (*m).poll_outcome(a);
                (Producer::MapOk(Box::new(nm)), out)
            }
            Producer::MapErr(m) => {
                let (nm, out) = (*m).poll_outcome(a);
                (Producer::MapErr(Box::new(nm)), out)
            }
            Producer::TryAbort(m) => {
                let (nm, out) = (*m).poll_outcome(a);
                (Producer::TryAbort(Box::new(nm)), out)
            }
        }
    }
}

} // verus!
