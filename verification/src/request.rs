//! The immutable snapshot of an incoming HTTP request.
//!
//! A [`Request`] holds the parsed method, path, query string and headers. The
//! path is kept both raw and split into its segments; the split is part of the
//! type's invariant, so every consumer of the segment sequence agrees on it.

use vstd::prelude::*;
use vstd::string::StrSliceExecFns;


verus! {

/// An HTTP method token.
#[derive(Debug, Clone, Copy, PartialEq, Eq, Structural)]
pub enum Method {
    Get,
    Post,
    Put,
    Delete,
    Patch,
    Head,
    Options,
}

/// The index of the first occurrence of `c` in `s`, or `-1` if absent.
pub open spec fn find_char(s: Seq<char>, c: char) -> int
    decreases s.len(),
{
    if s.len() == 0 {
        -1
    } else if s[0] == c {
        0
    } else if find_char(s.skip(1), c) < 0 {
        -1
    } else {
        find_char(s.skip(1), c) + 1
    }
}

/// The first occurrence is pinned down by its characterisation: `c` stands at
/// `i` and nowhere earlier.
pub proof fn lemma_find_char_is(s: Seq<char>, c: char, i: int)
    requires
        0 <= i < s.len(),
        s[i] == c,
        forall|j: int| 0 <= j < i ==> s[j] != c,
    ensures
        find_char(s, c) == i,
    decreases s.len(),
{
    if i > 0 {
        lemma_find_char_is(s.skip(1), c, i - 1);
    }
}

pub proof fn lemma_find_char_none(s: Seq<char>, c: char)
    requires
        forall|j: int| 0 <= j < s.len() ==> s[j] != c,
    ensures
        find_char(s, c) == -1,
    decreases s.len(),
{
    if s.len() > 0 {
        lemma_find_char_none(s.skip(1), c);
    }
}

/// Splits `s` at each occurrence of `c`: the result is the list of chunks
/// between the separators, in order, with empty chunks kept.
pub open spec fn split_on(s: Seq<char>, c: char) -> Seq<Seq<char>>
    decreases s.len(),
{
    let i = find_char(s, c);
    if 0 <= i && i < s.len() {
        seq![s.take(i)] + split_on(s.skip(i + 1), c)
    } else {
        seq![s]
    }
}

/// Splits `s` at each `'/'`.
pub open spec fn seg_split(s: Seq<char>) -> Seq<Seq<char>> {
    split_on(s, '/')
}

/// The segment sequence of a raw path: a path is `'/'` followed by
/// `'/'`-separated segments; the bare path `"/"` has no segments.
pub open spec fn path_segments(p: Seq<char>) -> Seq<Seq<char>> {
    if p.len() <= 1 {
        Seq::empty()
    } else {
        seg_split(p.skip(1))
    }
}

/// The path part of a request target: everything before the first `'?'`.
pub open spec fn uri_path(u: Seq<char>) -> Seq<char> {
    let i = find_char(u, '?');
    if 0 <= i && i < u.len() {
        u.take(i)
    } else {
        u
    }
}

/// The query part of a request target: everything after the first `'?'`, or
/// nothing if the target has no `'?'`.
pub open spec fn uri_query(u: Seq<char>) -> Option<Seq<char>> {
    let i = find_char(u, '?');
    if 0 <= i && i < u.len() {
        Some(u.skip(i + 1))
    } else {
        None
    }
}

/// The index of the first `c` at or after `from`, scanning left to right.
pub fn find_from(s: &str, c: char, from: usize) -> (r: Option<usize>)
    requires
        from <= s@.len(),
    ensures
        match r {
            Some(i) => from <= i < s@.len() && s@[i as int] == c && forall|j: int|
                from <= j < i ==> s@[j] != c,
            None => forall|j: int| from <= j < s@.len() ==> s@[j] != c,
        },
{
    let n = s.unicode_len();
    let mut i: usize = from;
    while i < n
        invariant
            from <= i <= n,
            n == s@.len(),
            forall|j: int| from <= j < i ==> s@[j] != c,
        decreases n - i,
    {
        if s.get_char(i) == c {
            return Some(i);
        }
        i = i + 1;
    }
    None
}

/// Splits the suffix of `s` starting at `from` at each occurrence of `c`.
pub fn split_from(s: &str, c: char, from: usize) -> (r: Vec<String>)
    requires
        from <= s@.len(),
    ensures
        r.deep_view() == split_on(s@.skip(from as int), c),
        r@.len() > 0,
    decreases s@.len() - from,
{
    let ghost suff = s@.skip(from as int);
    let n = s.unicode_len();
    match find_from(s, c, from) {
        None => {
            let seg = s.substring_char(from, n).to_owned();
            let mut v: Vec<String> = Vec::new();
            v.push(seg);
            proof {
                lemma_find_char_none(suff, c);
                assert(v.deep_view() =~= split_on(suff, c));
            }
            v
        }
        Some(i) => {
            let seg = s.substring_char(from, i).to_owned();
            let mut rest = split_from(s, c, i + 1);
            let ghost rest_snap = rest.deep_view();
            rest.insert(0, seg);
            proof {
                assert forall|j: int| 0 <= j < i - from implies suff[j] != c by {
                    assert(suff[j] == s@[from + j]);
                }
                lemma_find_char_is(suff, c, i - from);
                assert(suff.take(i - from) =~= s@.subrange(from as int, i as int));
                assert(suff.skip(i - from + 1) =~= s@.skip(i + 1));
                assert(rest.deep_view() =~= seq![seg@] + rest_snap);
            }
            rest
        }
    }
}

/// The mathematical model of a [`Request`].
pub ghost struct ReqView {
    pub method: Method,
    pub path: Seq<char>,
    pub segments: Seq<Seq<char>>,
    pub query: Option<Seq<char>>,
    pub headers: Seq<(Seq<char>, Seq<char>)>,
}

/// The error returned when a request target cannot be parsed.
#[derive(Debug, Clone, Copy, PartialEq, Eq)]
pub struct UriError {
    _priv: (),
}

/// The immutable snapshot of an incoming HTTP request, without its body.
#[derive(Debug)]
pub struct Request {
    method: Method,
    path: String,
    segments: Vec<String>,
    query: Option<String>,
    headers: Vec<(String, String)>,
}

impl Request {
    /// The model of this request.
    pub closed spec fn view(self) -> ReqView {
        ReqView {
            method: self.method,
            path: self.path@,
            segments: self.segments.deep_view(),
            query: match self.query {
                Some(q) => Some(q@),
                None => None,
            },
            headers: Seq::new(
                self.headers@.len(),
                |i: int| (self.headers@[i].0@, self.headers@[i].1@),
            ),
        }
    }

    /// The invariant of a request: its path starts with `'/'` and the stored
    /// segments are exactly the path's segments.
    pub open spec fn wf(self) -> bool {
        &&& self@.path.len() > 0
        &&& self@.path[0] == '/'
        &&& self@.segments == path_segments(self@.path)
    }

    /// Parses a request target into a request snapshot with no headers.
    ///
    /// The target must start with `'/'`; everything after the first `'?'` is
    /// the query string. Parsing fails exactly on targets that do not start
    /// with `'/'`.
    pub fn new(method: Method, uri: &str) -> (r: Result<Request, UriError>)
        ensures
            r is Ok <==> uri@.len() > 0 && uri@[0] == '/',
            r matches Ok(req) ==> {
                &&& req.wf()
                &&& req@.method == method
                &&& req@.path == uri_path(uri@)
                &&& req@.query == uri_query(uri@)
                &&& req@.headers.len() == 0
            },
    {
        let n = s_len(uri);
        if n == 0 || uri.get_char(0) != '/' {
            return Err(UriError { _priv: () });
        }
        let (path, query) = match find_from(uri, '?', 0) {
            Some(i) => {
                let p = uri.substring_char(0, i).to_owned();
                let q = uri.substring_char(i + 1, n).to_owned();
                proof {
                    lemma_find_char_is(uri@, '?', i as int);
                    assert(uri@.take(i as int) =~= uri@.subrange(0, i as int));
                    assert(uri@.skip(i + 1) =~= uri@.subrange(i + 1, n as int));
                }
                (p, Some(q))
            }
            None => {
                proof {
                    lemma_find_char_none(uri@, '?');
                }
                (uri.to_owned(), None)
            }
        };
        let segments = if path.unicode_len() <= 1 {
            Vec::new()
        } else {
            let p = path.as_str();
            assert(p@ == path@);
            split_from(p, '/', 1)
        };
        let req = Request { method, path, segments, query, headers: Vec::new() };
        proof {
            assert(req@.segments =~= path_segments(req@.path));
            assert(req@.headers =~= Seq::<(Seq<char>, Seq<char>)>::empty());
        }
        Ok(req)
    }

    /// The request's method.
    pub fn method(&self) -> (r: &Method)
        ensures
            r == self@.method,
    {
        &self.method
    }

    /// The raw path of the request target.
    pub fn path(&self) -> (r: &String)
        ensures
            r@ == self@.path,
    {
        &self.path
    }

    /// The path segments of the request target.
    pub fn segments(&self) -> (r: &Vec<String>)
        ensures
            r.deep_view() == self@.segments,
    {
        &self.segments
    }

    /// The raw query string, if the request target has one.
    pub fn query(&self) -> (r: &Option<String>)
        ensures
            match r {
                Some(q) => self@.query == Some(q@),
                None => self@.query is None,
            },
    {
        &self.query
    }

    /// The value of the first header with the given name, compared exactly.
    pub fn header(&self, name: &String) -> (r: Option<&String>)
        ensures
            match r {
                Some(v) => header_lookup(self@.headers, name@) == Some(v@),
                None => header_lookup(self@.headers, name@) is None,
            },
    {
        let mut i: usize = 0;
        while i < self.headers.len()
            invariant
                i <= self.headers@.len(),
                forall|j: int| 0 <= j < i ==> #[trigger] self@.headers[j].0 != name@,
            decreases self.headers@.len() - i,
        {
            proof {
                assert(self@.headers[i as int] == (
                    self.headers@[i as int].0@,
                    self.headers@[i as int].1@,
                ));
            }
            if self.headers[i].0 == *name {
                proof {
                    lemma_header_lookup_is(self@.headers, name@, i as int);
                }
                return Some(&self.headers[i].1);
            }
            i = i + 1;
        }
        proof {
            lemma_header_lookup_none(self@.headers, name@);
        }
        None
    }

    /// The header entries of the request, in insertion order.
    pub fn headers_list(&self) -> (r: &Vec<(String, String)>)
        ensures
            Seq::new(r@.len(), |i: int| (r@[i].0@, r@[i].1@)) == self@.headers,
    {
        &self.headers
    }

    /// Appends a header entry; everything else about the request is unchanged.
    pub fn push_header(&mut self, name: String, value: String)
        ensures
            final (self)@ == (ReqView { headers: old(self)@.headers.push((name@, value@)), ..old(self)@ }),
            old(self).wf() ==> final (self).wf(),
    {
        self.headers.push((name, value));
        proof {
            assert(self@.headers =~= old(self)@.headers.push((name@, value@)));
        }
    }
}

/// The value of the first header with the given name, or nothing.
pub open spec fn header_lookup(headers: Seq<(Seq<char>, Seq<char>)>, name: Seq<char>) -> Option<
    Seq<char>,
>
    decreases headers.len(),
{
    if headers.len() == 0 {
        None
    } else if headers[0].0 == name {
        Some(headers[0].1)
    } else {
        header_lookup(headers.skip(1), name)
    }
}

pub proof fn lemma_header_lookup_is(
    headers: Seq<(Seq<char>, Seq<char>)>,
    name: Seq<char>,
    i: int,
)
    requires
        0 <= i < headers.len(),
        headers[i].0 == name,
        forall|j: int| 0 <= j < i ==> #[trigger] headers[j].0 != name,
    ensures
        header_lookup(headers, name) == Some(headers[i].1),
    decreases headers.len(),
{
    if i > 0 {
        lemma_header_lookup_is(headers.skip(1), name, i - 1);
    }
}

pub proof fn lemma_header_lookup_none(headers: Seq<(Seq<char>, Seq<char>)>, name: Seq<char>)
    requires
        forall|j: int| 0 <= j < headers.len() ==> #[trigger] headers[j].0 != name,
    ensures
        header_lookup(headers, name) is None,
    decreases headers.len(),
{
    if headers.len() > 0 {
        lemma_header_lookup_none(headers.skip(1), name);
    }
}

/// The character length of a string slice.
fn s_len(s: &str) -> (r: usize)
    ensures
        r == s@.len(),
{
    s.unicode_len()
}

} // verus!
