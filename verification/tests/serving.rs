//! Static-file serving, response building and the cross-origin wrapper.

use finchers::application::{Application, ConstService};
use finchers::combinator::param;
use finchers::common::either::Either;
use finchers::cors::{cors_filter, CorsPoll, CorsResponse};
use finchers::endpoint::{Context, Endpoint};
use finchers::endpoints::fs::dir;
use finchers::error::HttpError;
use finchers::generic::{HList, Value};
use finchers::output::{default_error_handler, respond, respond_file, OutputContext, ResponseBody};
use finchers::request::{Method, Request};
use finchers::runner::{run_test, run_with_store, RouteResult, TestCase};
use finchers::task::AsyncInput;

fn s(text: &str) -> Value {
    Value::Str(text.to_string())
}

fn store() -> Vec<(String, Vec<u8>)> {
    vec![
        ("assets/sub/index.html".to_string(), b"<html>home</html>".to_vec()),
        ("assets/a b.txt".to_string(), b"spaced".to_vec()),
        ("motd".to_string(), b"hello".to_vec()),
    ]
}

fn file_value(path: &str, contents: &[u8]) -> Value {
    Value::Tuple(Box::new(HList::Cons(
        s(path),
        Box::new(HList::Cons(
            Value::Bytes(contents.to_vec()),
            Box::new(HList::Nil),
        )),
    )))
}

#[test]
fn file_serves_fixed_path() {
    let endpoint = Endpoint::FileServe(finchers::endpoints::fs::file("motd".to_string()));
    match run_with_store(&endpoint, TestCase::get("/").unwrap(), store()) {
        RouteResult::Success(v) => assert_eq!(v, vec![file_value("motd", b"hello")]),
        _ => panic!("expected the stored contents"),
    }
    match run_with_store(&endpoint, TestCase::get("/").unwrap(), vec![]) {
        RouteResult::Failed(e) => assert_eq!(e.status_code(), 404),
        _ => panic!("a missing file must be not found"),
    }
}

#[test]
fn dir_decodes_and_falls_back_to_index() {
    let endpoint = Endpoint::DirServe(dir("assets".to_string()));
    // A percent-encoded segment is decoded before the lookup.
    match run_with_store(&endpoint, TestCase::get("/a%20b.txt").unwrap(), store()) {
        RouteResult::Success(v) => {
            assert_eq!(v, vec![file_value("assets/a b.txt", b"spaced")]);
        }
        _ => panic!("expected the decoded path to be served"),
    }
    // A missing entry is retried with the index file appended.
    match run_with_store(&endpoint, TestCase::get("/sub").unwrap(), store()) {
        RouteResult::Success(v) => {
            assert_eq!(
                v,
                vec![file_value("assets/sub/index.html", b"<html>home</html>")]
            );
        }
        _ => panic!("expected the index fallback"),
    }
}

#[test]
fn respond_renders_the_builtin_conversions() {
    let req = Request::new(Method::Get, "/").unwrap();
    let mut cx = OutputContext::new(&req);
    assert!(!cx.is_pretty());
    assert!(cx.pretty().is_pretty());

    let r = respond(Value::Unit, &mut cx).unwrap();
    assert_eq!(r.status, 204);
    assert_eq!(r.body, ResponseBody::Empty);

    let r = respond(s("hi"), &mut cx).unwrap();
    assert_eq!(r.status, 200);
    assert_eq!(r.body, ResponseBody::Text("hi".to_string()));
    assert_eq!(r.content_length(), 2);

    let e = respond(Value::Opt(None), &mut cx).unwrap_err();
    assert_eq!(e.status_code(), 404);

    let r = respond(Value::Opt(Some(Box::new(s("x")))), &mut cx).unwrap();
    assert_eq!(r.status, 200);

    let r = respond(Value::ResOk(Box::new(Value::Unit)), &mut cx).unwrap();
    assert_eq!(r.status, 204);
}

#[test]
fn respond_file_guesses_the_content_type() {
    let r = respond_file("assets/index.html".to_string(), b"<html/>".to_vec());
    assert_eq!(r.status, 200);
    assert_eq!(
        r.headers,
        vec![("content-type".to_string(), "text/html".to_string())]
    );
    assert_eq!(r.body, ResponseBody::Blob(b"<html/>".to_vec()));
}

#[test]
fn error_rendering_declares_its_length() {
    let err = HttpError::new(418, "short and stout".to_string());
    let r = default_error_handler(&err);
    assert_eq!(r.status, 418);
    assert_eq!(r.body, ResponseBody::Text("short and stout".to_string()));
    assert_eq!(r.content_length(), 15);
    assert_eq!(
        r.headers,
        vec![(
            "content-type".to_string(),
            "text/plain; charset=utf-8".to_string()
        )]
    );
}

#[test]
fn query_param_by_name_is_eager() {
    let endpoint = Endpoint::QueryParam(param("hello".to_string()));
    match run_test(&endpoint, TestCase::get("/?hello=7").unwrap()) {
        RouteResult::Success(v) => assert_eq!(v, vec![Value::Int(7)]),
        _ => panic!("expected the parsed parameter"),
    }
    match run_test(&endpoint, TestCase::get("/?hello=world").unwrap()) {
        RouteResult::NoRoute => (),
        _ => panic!("an unparsable parameter must decline"),
    }
    match run_test(&endpoint, TestCase::get("/").unwrap()) {
        RouteResult::NoRoute => (),
        _ => panic!("a missing query string must decline"),
    }
}

#[test]
fn cors_answers_preflight_without_the_route() {
    // A body extractor with no body left would be fatal if it were driven:
    // the preflight answer proves the inner route is never consulted.
    let inner = Endpoint::Payload(finchers::endpoints::body::body(
        finchers::task::BodyKind::Raw,
    ));
    let wrapped = cors_filter().wrap(inner);

    let req = Request::new(Method::Options, "/").unwrap();
    let mut cx = Context::new(&req);
    let fut = wrapped.apply(&mut cx);

    let mut a = AsyncInput {
        method: Method::Options,
        query: None,
        headers: vec![
            ("origin".to_string(), "https://example.test".to_string()),
            ("access-control-request-method".to_string(), "PUT".to_string()),
        ],
        body: None,
        files: vec![],
    };
    let (_spent, out) = fut.poll(&mut a);
    match out {
        CorsPoll::Done(CorsResponse::Preflight { allow_method, allow_headers }) => {
            assert_eq!(allow_method, "PUT");
            assert_eq!(allow_headers, None);
        }
        _ => panic!("an OPTIONS request with an origin and a requested method is a preflight"),
    }
}

#[test]
fn cors_tags_cross_origin_requests() {
    let inner = Endpoint::JustVal(finchers::endpoint::just::just(s("data")));
    let wrapped = cors_filter().wrap(inner);

    let req = Request::new(Method::Get, "/").unwrap();
    let mut cx = Context::new(&req);
    let fut = wrapped.apply(&mut cx);
    let mut a = AsyncInput {
        method: Method::Get,
        query: None,
        headers: vec![("origin".to_string(), "https://example.test".to_string())],
        body: None,
        files: vec![],
    };
    let (_spent, out) = fut.poll(&mut a);
    match out {
        CorsPoll::Done(CorsResponse::Normal(v)) => assert_eq!(v, vec![s("data")]),
        _ => panic!("a cross-origin request is tagged normal"),
    }

    let inner = Endpoint::JustVal(finchers::endpoint::just::just(s("data")));
    let wrapped = cors_filter().wrap(inner);
    let mut cx = Context::new(&req);
    let fut = wrapped.apply(&mut cx);
    let mut plain = AsyncInput {
        method: Method::Get,
        query: None,
        headers: vec![],
        body: None,
        files: vec![],
    };
    let (_spent, out) = fut.poll(&mut plain);
    match out {
        CorsPoll::Done(CorsResponse::Raw(v)) => assert_eq!(v, vec![s("data")]),
        _ => panic!("a same-origin request passes through raw"),
    }
}

#[test]
fn application_builders() {
    let endpoint = Endpoint::JustVal(finchers::endpoint::just::just(Value::Unit));
    let mut app = Application::from_endpoint(endpoint);
    assert!(app.http().keep_alive);
    app.worker().concurrency = 4;
    app.tcp().addrs.push("127.0.0.1:4000".to_string());
    let (svc, http, tcp, worker) = app.deconstruct();
    assert!(http.keep_alive);
    assert_eq!(worker.concurrency, 4);
    assert_eq!(tcp.addrs, vec!["127.0.0.1:4000".to_string()]);
    let _tree = svc.new_service();

    let endpoint = Endpoint::JustVal(finchers::endpoint::just::just(Value::Unit));
    let mut app = Application::new(ConstService { service: endpoint });
    let _svc = app.new_service();
}

#[test]
fn either_round_trips() {
    let mut e: Either<i32, &str> = Either::Left(5);
    match e.as_ref() {
        Either::Left(v) => assert_eq!(*v, 5),
        Either::Right(_) => panic!("wrong side"),
    }
    match e.as_mut() {
        Either::Left(v) => *v = 6,
        Either::Right(_) => panic!("wrong side"),
    }
    assert_eq!(e, Either::Left(6));
    let f: Either<i32, i32> = Either::Right(9);
    assert_eq!(f.into_inner(), 9);
}

#[test]
fn cors_normal_response_is_marked() {
    let req = Request::new(Method::Get, "/").unwrap();
    let mut cx = OutputContext::new(&req);
    let wrapped = CorsResponse::Normal(vec![s("hi")]);
    let resp = wrapped.respond(&mut cx).unwrap();
    assert_eq!(resp.status, 200);
    assert_eq!(
        resp.headers,
        vec![("access-control-allow-origin".to_string(), "*".to_string())]
    );

    let raw = CorsResponse::Raw(vec![s("hi")]);
    let resp = raw.respond(&mut cx).unwrap();
    assert_eq!(resp.headers, vec![]);
}
