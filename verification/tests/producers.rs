//! Driving producers directly: single-resolution discipline and request
//! snapshots.

use finchers::generic::Value;
use finchers::request::{Method, Request};
use finchers::task::{AsyncInput, PollOutcome, Producer, ReadyFuture};

fn empty_input() -> AsyncInput {
    AsyncInput {
        method: Method::Get,
        query: None,
        headers: vec![],
        body: None,
        files: vec![],
    }
}

#[test]
fn producer_resolves_exactly_once() {
    let p = Producer::Ready(ReadyFuture {
        value: Some(Ok(vec![Value::Int(7)])),
    });
    let mut a = empty_input();
    let (spent, first) = p.poll_step(&mut a);
    match first {
        PollOutcome::Ready(v) => assert_eq!(v, vec![Value::Int(7)]),
        _ => panic!("the first drive must resolve"),
    }
    let (_spent, second) = spent.poll_step(&mut a);
    match second {
        PollOutcome::Fatal(m) => assert_eq!(m, "cannot poll twice"),
        _ => panic!("driving a resolved producer must be the fatal condition"),
    }
}

#[test]
fn request_snapshot_accessors() {
    let req = Request::new(Method::Post, "/a/b?k=v").unwrap();
    assert_eq!(*req.method(), Method::Post);
    assert_eq!(req.path(), "/a/b");
    assert_eq!(req.query().as_deref(), Some("k=v"));
    let segs: Vec<String> = req.segments().clone();
    assert_eq!(segs, vec!["a".to_string(), "b".to_string()]);

    let mut req = Request::new(Method::Get, "/").unwrap();
    assert_eq!(req.query().as_deref(), None);
    assert!(req.header(&"host".to_string()).is_none());
    req.push_header("host".to_string(), "localhost".to_string());
    assert_eq!(
        req.header(&"host".to_string()).map(|v| v.as_str()),
        Some("localhost")
    );
}
