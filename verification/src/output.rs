//! Building responses from resolved outputs: the response-building contract
//! and the default rendering of typed errors.

use vstd::prelude::*;
use vstd::string::StrSliceExecFns;
use vstd::string::StringExecFns;

use crate::error::{ErrV, HttpError};
use crate::generic::{lview, vview, Value, VV};
use crate::request::Request;

verus! {

/// Contextual information available while a response is being built.
#[derive(Debug)]
pub struct OutputContext<'a> {
    pub input: &'a Request,
    pub pretty: bool,
}

impl<'a> OutputContext<'a> {
    /// A fresh context for the given request, not in pretty mode.
    pub fn new(input: &'a Request) -> (r: OutputContext<'a>)
        ensures
            r.input == input,
            !r.pretty,
    {
        OutputContext { input, pretty: false }
    }

    /// The request the response answers.
    pub fn input(&self) -> (r: &Request)
        ensures
            r == self.input,
    {
        self.input
    }

    /// A copy of this context with the mode set to pretty.
    pub fn pretty(&self) -> (r: OutputContext<'a>)
        ensures
            r.input == self.input,
            r.pretty,
    {
        OutputContext { input: self.input, pretty: true }
    }

    /// Whether the current mode is pretty.
    pub fn is_pretty(&self) -> (r: bool)
        ensures
            r == self.pretty,
    {
        self.pretty
    }
}

/// A wrapper that renders its inner value in pretty mode.
#[derive(Debug)]
pub struct Pretty<T>(pub T);

/// The body of a response.
#[derive(Debug, PartialEq, Eq)]
pub enum ResponseBody {
    /// No body at all.
    Empty,
    /// A single text chunk.
    Text(String),
    /// A single binary chunk.
    Blob(Vec<u8>),
}

/// The model of a response body as bytes.
pub open spec fn body_bytes(b: ResponseBody) -> Seq<u8> {
    match b {
        ResponseBody::Empty => Seq::empty(),
        ResponseBody::Text(s) => vstd::utf8::encode_utf8(s@),
        ResponseBody::Blob(v) => v@,
    }
}

impl ResponseBody {
    /// The empty body.
    pub fn empty() -> (r: ResponseBody)
        ensures
            r is Empty,
    {
        ResponseBody::Empty
    }

    /// A body of one text chunk.
    pub fn once(body: String) -> (r: ResponseBody)
        ensures
            r matches ResponseBody::Text(s) && s@ == body@,
    {
        ResponseBody::Text(body)
    }

    /// The byte length of the body.
    pub fn len(&self) -> (r: usize)
        ensures
            r == body_bytes(*self).len() as usize,
    {
        match self {
            ResponseBody::Empty => {
                proof {
                    assert(body_bytes(*self) =~= Seq::<u8>::empty());
                }
                0
            }
            ResponseBody::Text(s) => s.as_str().len(),
            ResponseBody::Blob(v) => v.len(),
        }
    }
}

/// A built response: status, headers and body.
#[derive(Debug)]
pub struct Response {
    pub status: u16,
    pub headers: Vec<(String, String)>,
    pub body: ResponseBody,
}

/// The mathematical model of a response.
#[verifier::ext_equal]
pub ghost struct RespV {
    pub status: u16,
    pub headers: Seq<(Seq<char>, Seq<char>)>,
    pub body: Seq<u8>,
}

impl Response {
    /// The model of this response.
    pub open spec fn view(self) -> RespV {
        RespV {
            status: self.status,
            headers: Seq::new(
                self.headers@.len(),
                |i: int| (self.headers@[i].0@, self.headers@[i].1@),
            ),
            body: body_bytes(self.body),
        }
    }

    /// The content length the response declares: the byte length of its body.
    pub fn content_length(&self) -> (r: usize)
        ensures
            r == self@.body.len() as usize,
    {
        self.body.len()
    }
}

/// What the content type of a served file path is; the guess is a function of
/// the path alone.
pub uninterp spec fn mime_of_path(p: Seq<char>) -> Seq<char>;

/// Relies on `mime_guess::from_path`: the guessed type depends only on the
/// path's extension, with `application/octet-stream` as the fallback.
#[verifier::external_body]
fn guess_mime(path: &str) -> (r: String)
    ensures
        r@ == mime_of_path(path@),
{
    let mime = mime_guess::from_path(path).first_or_octet_stream();
    let text: &str = mime.as_ref();
    text.to_owned()
}

/// The model of converting a single resolved value into a response: the unit
/// value is 204 with no body, text and bytes are 200 with that body, an empty
/// option is the no-route 404, a populated option or result side delegates,
/// and a failed result or an unrenderable value is a typed error.
pub open spec fn respond_s(v: VV) -> Result<RespV, ErrV>
    decreases v,
{
    match v {
        VV::Unit => Ok(RespV { status: 204, headers: Seq::empty(), body: Seq::empty() }),
        VV::Str(s) => Ok(
            RespV { status: 200, headers: Seq::empty(), body: vstd::utf8::encode_utf8(s) },
        ),
        VV::Bytes(b) => Ok(RespV { status: 200, headers: Seq::empty(), body: b }),
        VV::Opt(o) => match o {
            None => Err(ErrV { status: 404, msg: "no route"@ }),
            Some(x) => respond_s(*x),
        },
        VV::ResOk(x) => respond_s(*x),
        VV::ResErr(_) => Err(ErrV { status: 500, msg: "error output"@ }),
        VV::Int(_) => Err(ErrV { status: 500, msg: "unrenderable output"@ }),
        VV::Tuple(elems) => if elems.len() == 1 {
            respond_s(elems[0])
        } else {
            Err(ErrV { status: 500, msg: "unrenderable output"@ })
        },
    }
}

/// Converts a single resolved value into a response, as [`respond_s`] says.
pub fn respond(v: Value, cx: &mut OutputContext) -> (r: Result<Response, HttpError>)
    ensures
        match r {
            Ok(resp) => respond_s(vview(v)) == Ok::<RespV, ErrV>(resp@),
            Err(e) => respond_s(vview(v)) == Err::<RespV, ErrV>(e@),
        },
    decreases v,
{
    let ghost vv0 = vview(v);
    match v {
        Value::Unit => {
            let resp = Response { status: 204, headers: Vec::new(), body: ResponseBody::Empty };
            proof {
                assert(resp@ =~= respond_s(VV::Unit)->Ok_0);
            }
            Ok(resp)
        }
        Value::Str(s) => {
            let ghost sv = s@;
            let resp = Response { status: 200, headers: Vec::new(), body: ResponseBody::Text(s) };
            proof {
                assert(resp@ =~= respond_s(VV::Str(sv))->Ok_0);
            }
            Ok(resp)
        }
        Value::Bytes(b) => {
            let ghost bv = b@;
            let resp = Response { status: 200, headers: Vec::new(), body: ResponseBody::Blob(b) };
            proof {
                assert(resp@ =~= respond_s(VV::Bytes(bv))->Ok_0);
            }
            Ok(resp)
        }
        Value::Opt(o) => match o {
            None => Err(HttpError::not_found(String::from_str("no route"))),
            Some(x) => {
                proof {
                    assert(respond_s(vv0) == respond_s(vview(*x)));
                }
                respond(*x, cx)
            }
        },
        Value::ResOk(x) => {
            proof {
                assert(respond_s(vv0) == respond_s(vview(*x)));
            }
            respond(*x, cx)
        }
        Value::ResErr(_) => Err(HttpError::new(500, String::from_str("error output"))),
        Value::Int(_) => Err(HttpError::new(500, String::from_str("unrenderable output"))),
        Value::Tuple(l) => {
            let ghost lv = lview(*l);
            match *l {
                crate::generic::HList::Cons(head, tail) => {
                    let ghost tlv = lview(*tail);
                    proof {
                        assert(lv == seq![vview(head)] + tlv);
                    }
                    match *tail {
                        crate::generic::HList::Nil => {
                            proof {
                                assert(tlv =~= Seq::<VV>::empty());
                                assert(lv =~= seq![vview(head)]);
                                assert(respond_s(vv0) == respond_s(vview(head)));
                            }
                            respond(head, cx)
                        }
                        crate::generic::HList::Cons(h2, t2) => {
                            proof {
                                assert(tlv == seq![vview(h2)] + lview(*t2));
                                assert(lv.len() >= 2);
                            }
                            Err(HttpError::new(500, String::from_str("unrenderable output")))
                        }
                    }
                }
                crate::generic::HList::Nil => {
                    proof {
                        assert(lv =~= Seq::<VV>::empty());
                    }
                    Err(HttpError::new(500, String::from_str("unrenderable output")))
                }
            }
        }
    }
}

/// Builds the response for a served file: status 200, the guessed content
/// type of the path, and the contents as the body.
pub fn respond_file(path: String, contents: Vec<u8>) -> (r: Response)
    ensures
        r@.status == 200,
        r@.body == contents@,
        r@.headers == seq![("content-type"@, mime_of_path(path@))],
{
    let mime = guess_mime(path.as_str());
    let mut headers: Vec<(String, String)> = Vec::new();
    headers.push((String::from_str("content-type"), mime));
    let resp = Response { status: 200, headers, body: ResponseBody::Blob(contents) };
    proof {
        assert(resp@.headers =~= seq![("content-type"@, mime_of_path(path@))]);
    }
    resp
}

/// The default rendering of a typed error: its display text as a plain-text
/// body under its declared status code, with the matching content length.
pub fn default_error_handler(err: &HttpError) -> (r: Response)
    ensures
        r@.status == err@.status,
        r@.body == vstd::utf8::encode_utf8(err@.msg),
        r@.headers == seq![("content-type"@, "text/plain; charset=utf-8"@)],
{
    let message = err.message().clone();
    let mut headers: Vec<(String, String)> = Vec::new();
    headers.push((String::from_str("content-type"), String::from_str(
        "text/plain; charset=utf-8",
    )));
    let resp = Response { status: err.status_code(), headers, body: ResponseBody::Text(message) };
    proof {
        assert(resp@.headers =~= seq![("content-type"@, "text/plain; charset=utf-8"@)]);
    }
    resp
}

} // verus!
