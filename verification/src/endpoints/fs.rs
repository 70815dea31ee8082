//! Endpoints that serve stored file contents: a fixed file, or a directory
//! addressed by the remaining path.

use vstd::prelude::*;
use vstd::string::StringExecFns;

use crate::endpoint::{apply_ok, Context, Endpoint, MatchOutcome};
use crate::error::{ErrV, HttpError};
use crate::task::{FileFuture, FileState, Producer};

verus! {

/// What `percent_decode` yields on a given string: the decoded text, or
/// nothing when the decoded bytes are not text.
pub uninterp spec fn percent_decoded(s: Seq<char>) -> Option<Seq<char>>;

/// Relies on `percent_encoding::percent_decode_str`: every `'%'` followed by
/// two hexadecimal digits is decoded to the byte they spell, everything else
/// is kept, and the result is text exactly when the decoded bytes are valid
/// UTF-8 — so a string without `'%'` decodes to itself.
#[verifier::external_body]
fn percent_decode(s: &str) -> (r: Option<String>)
    ensures
        match r {
            Some(d) => percent_decoded(s@) == Some(d@),
            None => percent_decoded(s@) is None,
        },
        (forall|i: int| 0 <= i < s@.len() ==> s@[i] != '%') ==> (match r {
            Some(d) => d@ == s@,
            None => false,
        }),
{
    match percent_encoding::percent_decode_str(s).decode_utf8() {
        Ok(d) => Some(d.into_owned()),
        Err(_) => None,
    }
}

/// The error reported when the remaining path is not percent-decodable.
pub open spec fn bad_encoding_err() -> ErrV {
    ErrV { status: 400, msg: "malformed path encoding"@ }
}

/// An endpoint serving one fixed path from the file store.
#[derive(Debug)]
pub struct File {
    pub path: String,
}

/// Creates an endpoint that serves the file stored under the given path.
pub fn file(path: String) -> (r: File)
    ensures
        r.path@ == path@,
{
    File { path }
}

impl File {
    /// Matches unconditionally, consuming nothing; the producer looks the
    /// fixed path up in the file store.
    pub fn apply(&self, cx: &mut Context) -> (r: MatchOutcome)
        requires
            old(cx).wf(),
        ensures
            final (cx).wf(),
            final (cx).input == old(cx).input,
            final (cx).pos >= old(cx).pos,
            apply_ok(
                Endpoint::FileServe(File { path: self.path }),
                old(cx).input@,
                old(cx).pos as int,
                final (cx).pos as int,
                r,
            ),
    {
        MatchOutcome::Matched(
            Producer::File(FileFuture { state: FileState::Open(self.path.clone(), false) }),
        )
    }
}

/// An endpoint serving the remaining path, percent-decoded and joined under a
/// root, from the file store; a missing entry falls back to its index file.
#[derive(Debug)]
pub struct Dir {
    pub root: String,
}

/// Creates an endpoint that serves files under the given root.
pub fn dir(root: String) -> (r: Dir)
    ensures
        r.root@ == root@,
{
    Dir { root }
}

impl Dir {
    /// Consumes all remaining segments; their joined, percent-decoded text is
    /// appended to the root, and the producer serves that path from the file
    /// store, falling back to its index file. A suffix that does not decode
    /// makes the producer report a bad request.
    pub fn apply(&self, cx: &mut Context) -> (r: MatchOutcome)
        requires
            old(cx).wf(),
        ensures
            final (cx).wf(),
            final (cx).input == old(cx).input,
            final (cx).pos >= old(cx).pos,
            apply_ok(
                Endpoint::DirServe(Dir { root: self.root }),
                old(cx).input@,
                old(cx).pos as int,
                final (cx).pos as int,
                r,
            ),
    {
        let ghost rv = cx.input@;
        let ghost pos0 = cx.pos as int;
        let rem = cx.remaining_path();
        let n = cx.input.segments().len();
        cx.pos = n;
        match percent_decode(rem.as_str()) {
            None => MatchOutcome::Matched(
                Producer::File(
                    FileFuture {
                        state: FileState::Failed(
                            Some(
                                HttpError::bad_request(
                                    String::from_str("malformed path encoding"),
                                ),
                            ),
                        ),
                    },
                ),
            ),
            Some(decoded) => {
                let ghost dv = decoded@;
                let full = self.root.clone().concat("/").concat(decoded.as_str());
                proof {
                    reveal_strlit("/");
                    assert("/"@ =~= seq!['/']);
                    assert(full@ == self.root@ + seq!['/'] + dv);
                }
                MatchOutcome::Matched(
                    Producer::File(FileFuture { state: FileState::Open(full, true) }),
                )
            }
        }
    }
}

} // verus!
