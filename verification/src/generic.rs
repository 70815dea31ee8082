//! The output-tuple algebra: dynamic values extracted by endpoints, and the
//! order-preserving concatenation of two output tuples.
//!
//! An output tuple is a `Vec<Value>`. Concatenation goes through a cons-list
//! (`HList`) exactly as the tuple algebra demands: the empty list is a left
//! identity, and a non-empty list keeps its head and concatenates its tail.

use vstd::prelude::*;

verus! {

/// A single value extracted by an endpoint while matching a request.
///
/// A `Tuple` element is itself a whole output tuple, so that nested tuples
/// survive concatenation without being flattened.
#[derive(Debug, PartialEq, Eq)]
pub enum Value {
    /// The unit value.
    Unit,
    /// A signed integer, e.g. a parsed path parameter.
    Int(i64),
    /// A text value, e.g. a path segment or header value.
    Str(String),
    /// A raw byte value, e.g. an extracted request body.
    Bytes(Vec<u8>),
    /// A nested output tuple.
    Tuple(Box<HList>),
    /// The success side of a result-valued output.
    ResOk(Box<Value>),
    /// The failure side of a result-valued output.
    ResErr(Box<Value>),
    /// An optional value, e.g. an optional header.
    Opt(Option<Box<Value>>),
}

/// A cons-list of values: the internal representation used to concatenate
/// output tuples.
#[derive(Debug, PartialEq, Eq)]
pub enum HList {
    Nil,
    Cons(Value, Box<HList>),
}

/// The mathematical model of a `Value`.
pub enum VV {
    Unit,
    Int(int),
    Str(Seq<char>),
    Bytes(Seq<u8>),
    Tuple(Seq<VV>),
    ResOk(Box<VV>),
    ResErr(Box<VV>),
    Opt(Option<Box<VV>>),
}

/// The model of a single value.
pub open spec fn vview(v: Value) -> VV
    decreases v,
{
    match v {
        Value::Unit => VV::Unit,
        Value::Int(n) => VV::Int(n as int),
        Value::Str(s) => VV::Str(s@),
        Value::Bytes(b) => VV::Bytes(b@),
        Value::Tuple(l) => VV::Tuple(lview(*l)),
        Value::ResOk(x) => VV::ResOk(Box::new(vview(*x))),
        Value::ResErr(x) => VV::ResErr(Box::new(vview(*x))),
        Value::Opt(o) => match o {
            Option::None => VV::Opt(None),
            Option::Some(x) => VV::Opt(Some(Box::new(vview(*x)))),
        },
    }
}

/// The model of a cons-list of values: the sequence of its element models.
pub open spec fn lview(l: HList) -> Seq<VV>
    decreases l,
{
    match l {
        HList::Nil => Seq::empty(),
        HList::Cons(v, tl) => seq![vview(v)] + lview(*tl),
    }
}

/// The model of an output tuple: the sequence of its element models.
pub open spec fn outs(vs: Seq<Value>) -> Seq<VV> {
    vs.map(|i: int, v: Value| vview(v))
}

impl Clone for Value {
    /// A deep copy: the copy has the same model as the original.
    fn clone(&self) -> (r: Self)
        ensures
            vview(r) == vview(*self),
        decreases self,
    {
        match self {
            Value::Unit => Value::Unit,
            Value::Int(n) => Value::Int(*n),
            Value::Str(s) => Value::Str(s.clone()),
            Value::Bytes(b) => Value::Bytes(b.clone()),
            Value::Tuple(l) => Value::Tuple(Box::new((**l).clone())),
            Value::ResOk(x) => Value::ResOk(Box::new((**x).clone())),
            Value::ResErr(x) => Value::ResErr(Box::new((**x).clone())),
            Value::Opt(o) => match o {
                Option::None => Value::Opt(None),
                Option::Some(x) => Value::Opt(Some(Box::new((**x).clone()))),
            },
        }
    }
}

impl Clone for HList {
    /// A deep copy: the copy has the same model as the original.
    fn clone(&self) -> (r: Self)
        ensures
            lview(r) == lview(*self),
        decreases self,
    {
        match self {
            HList::Nil => HList::Nil,
            HList::Cons(v, tl) => HList::Cons(v.clone(), Box::new((**tl).clone())),
        }
    }
}

impl HList {
    /// Concatenation of cons-lists: the empty list yields the other list
    /// unchanged; a non-empty list keeps its head and concatenates its tail.
    pub fn combine(self, other: HList) -> (r: HList)
        ensures
            lview(r) == lview(self) + lview(other),
        decreases self,
    {
        match self {
            HList::Nil => {
                proof {
                    assert(lview(HList::Nil) + lview(other) =~= lview(other));
                }
                other
            }
            HList::Cons(head, tail) => {
                let rest = (*tail).combine(other);
                proof {
                    assert(seq![vview(head)] + (lview(*tail) + lview(other)) =~= (seq![
                        vview(head),
                    ] + lview(*tail)) + lview(other));
                }
                HList::Cons(head, Box::new(rest))
            }
        }
    }
}

/// Converts an output tuple into its cons-list form, preserving order.
pub fn hlist_of(mut vs: Vec<Value>) -> (r: HList)
    ensures
        lview(r) == outs(vs@),
    decreases vs@.len(),
{
    if vs.len() == 0 {
        proof {
            assert(lview(HList::Nil) =~= outs(vs@));
        }
        HList::Nil
    } else {
        let head = vs.remove(0);
        let ghost old_vs = seq![head].add(vs@);
        let tail = hlist_of(vs);
        proof {
            assert(seq![vview(head)] + outs(old_vs.skip(1)) =~= outs(old_vs));
        }
        HList::Cons(head, Box::new(tail))
    }
}

/// Converts a cons-list back into an output tuple, preserving order.
pub fn tuple_of(l: HList) -> (r: Vec<Value>)
    ensures
        outs(r@) == lview(l),
    decreases l,
{
    match l {
        HList::Nil => {
            let r: Vec<Value> = Vec::new();
            proof {
                assert(outs(r@) =~= lview(HList::Nil));
            }
            r
        }
        HList::Cons(head, tail) => {
            let mut rest = tuple_of(*tail);
            let ghost rest_snap = rest@;
            rest.insert(0, head);
            proof {
                assert(outs(rest@) =~= seq![vview(head)] + outs(rest_snap));
            }
            rest
        }
    }
}

/// Concatenates two output tuples: the result holds the left tuple's values
/// followed by the right tuple's values, in order, without flattening nested
/// tuples.
pub fn combine(h: Vec<Value>, t: Vec<Value>) -> (r: Vec<Value>)
    ensures
        outs(r@) == outs(h@) + outs(t@),
        r@.len() == h@.len() + t@.len(),
{
    let ghost hs = h@;
    let ghost ts = t@;
    let r = tuple_of(hlist_of(h).combine(hlist_of(t)));
    proof {
        assert(outs(r@).len() == outs(hs).len() + outs(ts).len());
    }
    r
}

/// A deep copy of an output tuple: the copy has the same model.
pub fn clone_values(vs: &Vec<Value>) -> (r: Vec<Value>)
    ensures
        outs(r@) == outs(vs@),
{
    let mut r: Vec<Value> = Vec::new();
    let mut i: usize = 0;
    while i < vs.len()
        invariant
            i <= vs@.len(),
            r@.len() == i,
            forall|j: int| 0 <= j < i ==> vview(#[trigger] r@[j]) == vview(vs@[j]),
        decreases vs@.len() - i,
    {
        r.push(vs[i].clone());
        i = i + 1;
    }
    proof {
        assert(outs(r@) =~= outs(vs@));
    }
    r
}

/// A copy of a list of strings with the same model.
pub fn clone_strings(vs: &Vec<String>) -> (r: Vec<String>)
    ensures
        r.deep_view() == vs.deep_view(),
{
    let mut r: Vec<String> = Vec::new();
    let mut i: usize = 0;
    while i < vs.len()
        invariant
            i <= vs@.len(),
            r@.len() == i,
            forall|j: int| 0 <= j < i ==> (#[trigger] r@[j])@ == vs@[j]@,
        decreases vs@.len() - i,
    {
        r.push(vs[i].clone());
        i = i + 1;
    }
    proof {
        assert(r.deep_view() =~= vs.deep_view());
    }
    r
}

/// Concatenation of output tuples is associative: combining left-to-right and
/// right-to-left yields the same flattened tuple.
pub proof fn lemma_combine_associative(a: Seq<Value>, b: Seq<Value>, c: Seq<Value>)
    ensures
        (outs(a) + outs(b)) + outs(c) == outs(a) + (outs(b) + outs(c)),
{
    assert((outs(a) + outs(b)) + outs(c) =~= outs(a) + (outs(b) + outs(c)));
}

} // verus!
