//! Driving whole requests through composed endpoints.

use finchers::endpoint::Endpoint;
use finchers::endpoints::body::body;
use finchers::endpoints::header::{exact, optional, required};
use finchers::endpoints::path::{end, param, path, remains, ParamKind};
use finchers::endpoints::query::query;
use finchers::error::HttpError;
use finchers::generic::Value;
use finchers::request::Method;
use finchers::runner::{run_test, RouteResult, TestCase};
use finchers::task::{BodyKind, Transform, TryTransform, ValueTransform};

fn s(text: &str) -> Value {
    Value::Str(text.to_string())
}

fn lit(text: &str) -> Endpoint {
    Endpoint::Path(path(text))
}

fn just_str(text: &str) -> Endpoint {
    Endpoint::JustVal(finchers::endpoint::just::just(s(text)))
}

fn get(uri: &str) -> TestCase {
    TestCase::get(uri).unwrap()
}

#[test]
fn test_map() {
    let endpoint = Endpoint::JustVal(finchers::endpoint::just::just(Value::Unit))
        .map(Transform::ConstTuple(vec![s("Foo")]));
    let outcome = run_test(&endpoint, get("/"));
    match outcome {
        RouteResult::Success(v) => assert_eq!(v, vec![s("Foo")]),
        _ => panic!("does not match"),
    }
}

#[test]
fn test_or_1() {
    let endpoint = lit("foo").and(just_str("foo")).or(lit("bar").and(just_str("bar")));

    match run_test(&endpoint, get("/foo")) {
        RouteResult::Success(v) => assert_eq!(v, vec![s("foo")]),
        _ => panic!("does not match"),
    }

    match run_test(&endpoint, get("/bar")) {
        RouteResult::Success(v) => assert_eq!(v, vec![s("bar")]),
        _ => panic!("does not match"),
    }
}

#[test]
fn test_or_choose_longer_segments() {
    let e1 = lit("foo").and(just_str("foo"));
    let e2 = lit("foo/bar").and(just_str("foobar"));
    let endpoint = e1.or(e2);

    match run_test(&endpoint, get("/foo")) {
        RouteResult::Success(v) => assert_eq!(v, vec![s("foo")]),
        _ => panic!("does not match"),
    }

    match run_test(&endpoint, get("/foo/bar")) {
        RouteResult::Success(v) => assert_eq!(v, vec![s("foobar")]),
        _ => panic!("does not match"),
    }
}

#[test]
fn test_ok() {
    let endpoint = Endpoint::ConstOk(finchers::endpoint::result::ok(s("Alice")));
    let case = TestCase::new(Method::Get, "/").unwrap();
    match run_test(&endpoint, case) {
        RouteResult::Success(v) if v == vec![s("Alice")] => (),
        _ => panic!("does not match"),
    }
}

#[test]
fn test_err() {
    let endpoint = Endpoint::ConstErr(finchers::endpoint::result::err(HttpError::bad_request(
        "Alice".to_string(),
    )));
    let case = TestCase::new(Method::Get, "/").unwrap();
    match run_test(&endpoint, case) {
        RouteResult::Failed(e) if e.message() == "Alice" => (),
        _ => panic!("does not match"),
    }
}

#[test]
fn test_result() {
    let endpoint = Endpoint::ConstResult(finchers::endpoint::result::result(Ok(s("Alice"))));
    let case = TestCase::new(Method::Get, "/").unwrap();
    match run_test(&endpoint, case) {
        RouteResult::Success(v) if v == vec![s("Alice")] => (),
        _ => panic!("does not match"),
    }
}

#[test]
fn path_literal_matches_exactly() {
    let endpoint = lit("posts");
    match run_test(&endpoint, get("/posts")) {
        RouteResult::Success(v) => assert_eq!(v, vec![]),
        _ => panic!("expected a match with empty output"),
    }
    match run_test(&endpoint, get("/users")) {
        RouteResult::NoRoute => (),
        _ => panic!("expected a decline"),
    }
}

#[test]
fn and_concatenates_outputs_in_order() {
    let endpoint = just_str("a").and(just_str("b")).and(just_str("c"));
    match run_test(&endpoint, get("/")) {
        RouteResult::Success(v) => assert_eq!(v, vec![s("a"), s("b"), s("c")]),
        _ => panic!("expected success"),
    }
    let right = just_str("a").and(just_str("b").and(just_str("c")));
    match run_test(&right, get("/")) {
        RouteResult::Success(v) => assert_eq!(v, vec![s("a"), s("b"), s("c")]),
        _ => panic!("expected success"),
    }
}

#[test]
fn or_surfaces_malformed_over_declined() {
    let e1 = Endpoint::Segment(param(ParamKind::Int));
    let e2 = lit("zzz").and(lit("www"));
    let endpoint = e1.or(e2);
    match run_test(&endpoint, get("/abc")) {
        RouteResult::Failed(e) => assert_eq!(e.status_code(), 400),
        _ => panic!("the malformed branch must win over the declined one"),
    }
}

#[test]
fn body_extracted_at_most_once() {
    let endpoint = Endpoint::Payload(body(BodyKind::Raw)).and(Endpoint::Payload(body(
        BodyKind::Raw,
    )));
    let case = TestCase::post("/").unwrap().with_body(b"hello".to_vec());
    match run_test(&endpoint, case) {
        RouteResult::Fatal(m) => {
            assert_eq!(m, "the request body has already been taken");
        }
        _ => panic!("the second extraction must be the fatal condition"),
    }
}

#[test]
fn body_extracts_bytes() {
    let endpoint = Endpoint::Payload(body(BodyKind::Raw));
    let case = TestCase::post("/").unwrap().with_body(b"hello".to_vec());
    match run_test(&endpoint, case) {
        RouteResult::Success(v) => assert_eq!(v, vec![Value::Bytes(b"hello".to_vec())]),
        _ => panic!("expected the body bytes"),
    }
}

#[test]
fn int_param_round_trip() {
    let endpoint = Endpoint::Segment(param(ParamKind::Int));
    match run_test(&endpoint, get("/42")) {
        RouteResult::Success(v) => assert_eq!(v, vec![Value::Int(42)]),
        _ => panic!("expected the parsed integer"),
    }
    match run_test(&endpoint, get("/abc")) {
        RouteResult::Failed(e) => {
            assert_eq!(e.status_code(), 400);
            assert_eq!(e.message(), "failed to parse a path segment");
        }
        _ => panic!("a bad segment must be a malformed request"),
    }
}

#[test]
fn int_param_bounds() {
    let endpoint = Endpoint::Segment(param(ParamKind::Int));
    match run_test(&endpoint, get("/9223372036854775807")) {
        RouteResult::Success(v) => assert_eq!(v, vec![Value::Int(9223372036854775807)]),
        _ => panic!("the largest value must parse"),
    }
    match run_test(&endpoint, get("/-9223372036854775808")) {
        RouteResult::Success(v) => assert_eq!(v, vec![Value::Int(-9223372036854775808)]),
        _ => panic!("the smallest value must parse"),
    }
    match run_test(&endpoint, get("/9223372036854775808")) {
        RouteResult::Failed(e) => assert_eq!(e.status_code(), 400),
        _ => panic!("an overflowing value must be a malformed request"),
    }
}

#[test]
fn composed_path_with_end() {
    let endpoint = lit("api").and(lit("v1")).and(lit("posts")).and(Endpoint::End(end()));
    match run_test(&endpoint, get("/api/v1/posts")) {
        RouteResult::Success(v) => assert_eq!(v, vec![]),
        _ => panic!("expected a match with empty output"),
    }
    match run_test(&endpoint, get("/api/v1/posts/extra")) {
        RouteResult::NoRoute => (),
        _ => panic!("a longer path must decline once end() is in place"),
    }
}

#[test]
fn query_without_query_string_is_bad_request() {
    let endpoint = Endpoint::QueryRecord(query(vec!["count".to_string()]));
    match run_test(&endpoint, get("/")) {
        RouteResult::Failed(e) => {
            assert_eq!(e.status_code(), 400);
            assert_eq!(e.message(), "missing query string");
        }
        _ => panic!("a missing query string must fail, not decline"),
    }
    match run_test(&endpoint, get("/?count=5&tag=x")) {
        RouteResult::Success(v) => assert_eq!(v, vec![s("5")]),
        _ => panic!("expected the parameter value"),
    }
    match run_test(&endpoint, get("/?tag=x")) {
        RouteResult::Failed(e) => {
            assert_eq!(e.status_code(), 400);
            assert_eq!(e.message(), "missing query parameter: count");
        }
        _ => panic!("a missing mandatory parameter must fail"),
    }
}

#[test]
fn remains_joins_the_suffix() {
    let endpoint = lit("static").and(Endpoint::Rest(remains(ParamKind::Text)));
    match run_test(&endpoint, get("/static/css/site.css")) {
        RouteResult::Success(v) => assert_eq!(v, vec![s("css/site.css")]),
        _ => panic!("expected the joined remainder"),
    }
}

#[test]
fn header_matchers() {
    let opt = Endpoint::OptionalHeader(optional("x-api-key".to_string()));
    match run_test(&opt, get("/")) {
        RouteResult::NoRoute => (),
        _ => panic!("a missing optional header must decline"),
    }
    let case = get("/").with_header("x-api-key".to_string(), "secret".to_string());
    match run_test(&opt, case) {
        RouteResult::Success(v) => assert_eq!(v, vec![s("secret")]),
        _ => panic!("expected the header value"),
    }

    let req = Endpoint::RequiredHeader(required("x-api-key".to_string()));
    match run_test(&req, get("/")) {
        RouteResult::Failed(e) => {
            assert_eq!(e.status_code(), 400);
            assert_eq!(e.message(), "missing header: x-api-key");
        }
        _ => panic!("a missing required header must fail, not decline"),
    }

    let ex = Endpoint::ExactHeader(exact("accept".to_string(), "*/*".to_string()));
    match run_test(&ex, get("/").with_header("accept".to_string(), "*/*".to_string())) {
        RouteResult::Success(v) => assert_eq!(v, vec![]),
        _ => panic!("expected a match on the exact value"),
    }
    match run_test(&ex, get("/").with_header("accept".to_string(), "text/html".to_string())) {
        RouteResult::NoRoute => (),
        _ => panic!("a different value must decline"),
    }
}

#[test]
fn and_then_rejection_aborts() {
    let endpoint = just_str("x").and_then(TryTransform::Reject(HttpError::new(
        422,
        "rejected".to_string(),
    )));
    match run_test(&endpoint, get("/")) {
        RouteResult::Failed(e) => {
            assert_eq!(e.status_code(), 422);
            assert_eq!(e.message(), "rejected");
        }
        _ => panic!("the rejecting transform must abort"),
    }
}

#[test]
fn try_abort_passes_successes() {
    let endpoint = just_str("x").try_abort(TryTransform::Pass(Transform::Identity));
    match run_test(&endpoint, get("/")) {
        RouteResult::Success(v) => assert_eq!(v, vec![s("x")]),
        _ => panic!("a passing transform must keep the output"),
    }
}

#[test]
fn map_ok_and_map_err_touch_only_their_side() {
    let ok_val = Value::ResOk(Box::new(s("alpha")));
    let endpoint = Endpoint::JustVal(finchers::endpoint::just::just(ok_val))
        .map_ok(ValueTransform::ConstVal(Box::new(s("beta"))));
    match run_test(&endpoint, get("/")) {
        RouteResult::Success(v) => {
            assert_eq!(v, vec![Value::ResOk(Box::new(s("beta")))]);
        }
        _ => panic!("expected the mapped success value"),
    }

    let err_val = Value::ResErr(Box::new(s("oops")));
    let endpoint = Endpoint::JustVal(finchers::endpoint::just::just(err_val))
        .map_ok(ValueTransform::ConstVal(Box::new(s("beta"))));
    match run_test(&endpoint, get("/")) {
        RouteResult::Success(v) => {
            assert_eq!(v, vec![Value::ResErr(Box::new(s("oops")))]);
        }
        _ => panic!("the failure side must pass through map_ok unchanged"),
    }

    let err_val = Value::ResErr(Box::new(s("oops")));
    let endpoint = Endpoint::JustVal(finchers::endpoint::just::just(err_val))
        .map_err(ValueTransform::ConstVal(Box::new(s("mapped"))));
    match run_test(&endpoint, get("/")) {
        RouteResult::Success(v) => {
            assert_eq!(v, vec![Value::ResErr(Box::new(s("mapped")))]);
        }
        _ => panic!("expected the mapped failure value"),
    }
}

#[test]
fn skip_all_discards_outputs() {
    let sa = finchers::endpoints::skip_all::skip_all(vec![lit("a"), just_str("ignored")]);
    let endpoint = Endpoint::SkipMany(sa);
    match run_test(&endpoint, get("/a")) {
        RouteResult::Success(v) => assert_eq!(v, vec![]),
        _ => panic!("expected an empty output"),
    }
    let sa = finchers::endpoints::skip_all::skip_all(vec![lit("a"), lit("b")]);
    let endpoint = Endpoint::SkipMany(sa);
    match run_test(&endpoint, get("/a/zzz")) {
        RouteResult::NoRoute => (),
        _ => panic!("a failing element must decline the whole list"),
    }
}

#[test]
fn bad_request_target_is_rejected() {
    assert!(TestCase::get("nope").is_err());
    assert!(TestCase::get("").is_err());
    assert!(TestCase::get("/").is_ok());
}

#[test]
fn or_tie_prefers_the_left_branch() {
    let endpoint = lit("foo").and(just_str("left")).or(lit("foo").and(just_str("right")));
    match run_test(&endpoint, get("/foo")) {
        RouteResult::Success(v) => assert_eq!(v, vec![s("left")]),
        _ => panic!("equal consumption must go to the left branch"),
    }
}

#[test]
fn remains_parses_the_joined_suffix() {
    let endpoint = Endpoint::Rest(remains(ParamKind::Int));
    match run_test(&endpoint, get("/1234")) {
        RouteResult::Success(v) => assert_eq!(v, vec![Value::Int(1234)]),
        _ => panic!("expected the parsed remainder"),
    }
    match run_test(&endpoint, get("/12/34")) {
        RouteResult::Failed(e) => assert_eq!(e.status_code(), 400),
        _ => panic!("an unparsable remainder must be a malformed request"),
    }
}

#[test]
fn body_unit_consumes_and_discards() {
    let endpoint = Endpoint::Payload(body(BodyKind::Unit));
    let case = TestCase::post("/").unwrap().with_body(b"ignored".to_vec());
    match run_test(&endpoint, case) {
        RouteResult::Success(v) => assert_eq!(v, vec![Value::Unit]),
        _ => panic!("expected the unit output"),
    }
}

#[test]
fn body_text_decodes_utf8() {
    let endpoint = Endpoint::Payload(body(BodyKind::Text));
    let case = TestCase::post("/").unwrap().with_body("caf\u{e9}".as_bytes().to_vec());
    match run_test(&endpoint, case) {
        RouteResult::Success(v) => assert_eq!(v, vec![s("caf\u{e9}")]),
        _ => panic!("expected the decoded text"),
    }
    let case = TestCase::post("/").unwrap().with_body(vec![0xff, 0xfe]);
    match run_test(&endpoint, case) {
        RouteResult::Failed(e) => {
            assert_eq!(e.status_code(), 400);
            assert_eq!(e.message(), "the request body is not text");
        }
        _ => panic!("bytes that are not text must be a bad request"),
    }
}

#[test]
fn test_boxed() {
    let endpoint: Box<Endpoint> = Box::new(lit("foo"));
    match run_test(&endpoint, get("/foo")) {
        RouteResult::Success(v) => assert_eq!(v, vec![]),
        _ => panic!("expected a match"),
    }
}

#[test]
fn test_boxed_local() {
    let routes: Vec<Box<Endpoint>> = vec![Box::new(lit("foo"))];
    match run_test(&routes[0], get("/foo")) {
        RouteResult::Success(v) => assert_eq!(v, vec![]),
        _ => panic!("expected a match"),
    }
}
