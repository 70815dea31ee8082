//! The output-tuple concatenation algebra on concrete values.

use finchers::generic::{combine, HList, Value};

fn tuple2(a: Value, b: Value) -> Value {
    Value::Tuple(Box::new(HList::Cons(
        a,
        Box::new(HList::Cons(b, Box::new(HList::Nil))),
    )))
}

fn tuple1(a: Value) -> Value {
    Value::Tuple(Box::new(HList::Cons(a, Box::new(HList::Nil))))
}

fn s(text: &str) -> Value {
    Value::Str(text.to_string())
}

#[test]
fn case1_units() {
    let a: Vec<Value> = vec![];
    let b: Vec<Value> = vec![];
    assert_eq!(combine(a, b), vec![]);
}

#[test]
fn case2_unit1() {
    let a = vec![Value::Int(10)];
    let b: Vec<Value> = vec![];
    assert_eq!(combine(a, b), vec![Value::Int(10)]);
}

#[test]
fn case3_unit2() {
    let a: Vec<Value> = vec![];
    let b = vec![Value::Int(10)];
    assert_eq!(combine(a, b), vec![Value::Int(10)]);
}

#[test]
fn case4_complicated() {
    let a = vec![s("a"), s("b"), s("c")];
    let b = vec![Value::Int(10), Value::Int(20), Value::Int(30)];
    assert_eq!(
        combine(a, b),
        vec![
            s("a"),
            s("b"),
            s("c"),
            Value::Int(10),
            Value::Int(20),
            Value::Int(30)
        ]
    );
}

#[test]
fn case5_nested() {
    let a = vec![s("a"), tuple2(s("b"), s("c"))];
    let b = vec![
        Value::Int(10),
        tuple1(Value::Int(20)),
        Value::Int(30),
    ];
    assert_eq!(
        combine(a, b),
        vec![
            s("a"),
            tuple2(s("b"), s("c")),
            Value::Int(10),
            tuple1(Value::Int(20)),
            Value::Int(30)
        ]
    );
}

#[test]
fn combine_is_associative_on_values() {
    let a = vec![s("a")];
    let b = vec![Value::Int(1), Value::Int(2)];
    let c = vec![s("z")];
    let left = combine(combine(a.clone(), b.clone()), c.clone());
    let right = combine(a, combine(b, c));
    assert_eq!(left, right);
}
