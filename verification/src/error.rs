//! Typed errors surfaced by endpoints.
//!
//! An [`HttpError`] carries the status code that the response-building layer
//! renders, together with a plain-text message. `Declined` outcomes are not
//! errors: they only steer route selection and never reach a client.

use vstd::prelude::*;

verus! {

/// The mathematical model of an [`HttpError`].
#[verifier::ext_equal]
pub ghost struct ErrV {
    pub status: u16,
    pub msg: Seq<char>,
}

/// A typed error with an HTTP status code and a plain-text message.
#[derive(Debug)]
pub struct HttpError {
    status: u16,
    message: String,
}

impl HttpError {
    /// The model of this error.
    pub closed spec fn view(self) -> ErrV {
        ErrV { status: self.status, msg: self.message@ }
    }

    /// Creates an error with the given status code and message.
    pub fn new(status: u16, message: String) -> (r: HttpError)
        ensures
            r@ == (ErrV { status, msg: message@ }),
    {
        HttpError { status, message }
    }

    /// Creates an error with status 400: the request was understood
    /// structurally but its content is invalid.
    pub fn bad_request(message: String) -> (r: HttpError)
        ensures
            r@ == (ErrV { status: 400u16, msg: message@ }),
    {
        HttpError { status: 400, message }
    }

    /// Creates an error with status 404.
    pub fn not_found(message: String) -> (r: HttpError)
        ensures
            r@ == (ErrV { status: 404u16, msg: message@ }),
    {
        HttpError { status: 404, message }
    }

    /// The status code rendered for this error.
    pub fn status_code(&self) -> (r: u16)
        ensures
            r == self@.status,
    {
        self.status
    }

    /// The display text of this error.
    pub fn message(&self) -> (r: &String)
        ensures
            r@ == self@.msg,
    {
        &self.message
    }
}

impl Clone for HttpError {
    /// A copy with the same model.
    fn clone(&self) -> (r: Self)
        ensures
            r@ == self@,
    {
        HttpError { status: self.status, message: self.message.clone() }
    }
}

/// The distinguished "no route matched" outcome. It is not a typed error: the
/// caller's default policy maps it to a 404 response.
#[derive(Debug, Clone, Copy, PartialEq, Eq)]
pub struct NoRoute {
    _priv: (),
}

impl NoRoute {
    /// Creates the no-route marker.
    pub fn new() -> NoRoute {
        NoRoute { _priv: () }
    }

    /// The status code of the response rendered for a missing route.
    pub fn status_code(&self) -> (r: u16)
        ensures
            r == 404u16,
    {
        404
    }
}

/// The error reported when a typed path parameter fails to parse.
#[derive(Debug)]
pub struct ParamError {
    cause: String,
}

impl ParamError {
    /// Wraps the cause of a failed path-parameter parse.
    pub fn new(cause: String) -> (r: ParamError)
        ensures
            r.spec_cause() == cause@,
    {
        ParamError { cause }
    }

    /// The cause of the failed parse.
    pub closed spec fn spec_cause(self) -> Seq<char> {
        self.cause@
    }

    /// A failed path-parameter parse is the client's fault.
    pub fn status_code(&self) -> (r: u16)
        ensures
            r == 400u16,
    {
        400
    }

    /// Converts this parse failure into the typed error surfaced to the
    /// response-building layer, keeping the cause as the message.
    pub fn into_http_error(self) -> (r: HttpError)
        ensures
            r@ == (ErrV { status: 400u16, msg: self.spec_cause() }),
    {
        HttpError::bad_request(self.cause)
    }
}

} // verus!
