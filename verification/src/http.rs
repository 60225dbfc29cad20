//! Plain descriptions of the requests that the library asks for and of the
//! responses that it is handed back.

use crate::error::{Error, ErrorView};
use vstd::prelude::*;
use vstd::string::{StrSliceExecFns, StringExecFns};

verus! {

/// The time, in milliseconds, that one attempt may spend connecting, reading
/// or writing.
pub const ATTEMPT_TIMEOUT_MS: u64 = 30_000;

/// The request methods that the protocol uses.
#[derive(Debug, Clone, Copy, PartialEq, Eq, Structural)]
pub enum Method {
    Get,
    Head,
    Post,
}

/// One request for the transport to send. A timeout of zero means that none
/// was set.
#[derive(Debug, Clone, PartialEq, Eq)]
pub struct HttpRequest {
    pub method: Method,
    pub url: String,
    pub content_type: Option<String>,
    pub body: Option<String>,
    pub timeout_connect: u64,
    pub timeout_read: u64,
    pub timeout_write: u64,
}

/// The mathematical value of an [`HttpRequest`].
pub struct HttpRequestView {
    pub method: Method,
    pub url: Seq<char>,
    pub content_type: Option<Seq<char>>,
    pub body: Option<Seq<char>>,
    pub timeout_connect: u64,
    pub timeout_read: u64,
    pub timeout_write: u64,
}

/// The view of an optional string.
pub open spec fn opt_view(s: Option<String>) -> Option<Seq<char>> {
    match s {
        Some(s) => Some(s@),
        None => None,
    }
}

impl View for HttpRequest {
    type V = HttpRequestView;

    open spec fn view(&self) -> HttpRequestView {
        HttpRequestView {
            method: self.method,
            url: self.url@,
            content_type: opt_view(self.content_type),
            body: opt_view(self.body),
            timeout_connect: self.timeout_connect,
            timeout_read: self.timeout_read,
            timeout_write: self.timeout_write,
        }
    }
}

impl HttpRequest {
    /// A request without a body and without timeouts.
    pub fn new(method: Method, url: &str) -> (req: HttpRequest)
        ensures
            req@ == (HttpRequestView {
                method,
                url: url@,
                content_type: None,
                body: None,
                timeout_connect: 0,
                timeout_read: 0,
                timeout_write: 0,
            }),
    {
        HttpRequest {
            method,
            url: String::from_str(url),
            content_type: None,
            body: None,
            timeout_connect: 0,
            timeout_read: 0,
            timeout_write: 0,
        }
    }
}

/// Bounds the three phases of an attempt, so that no attempt hangs for
/// ever. Nothing else of the request changes.
pub fn configure_req(req: &mut HttpRequest)
    ensures
        final(req)@ == (HttpRequestView {
            timeout_connect: ATTEMPT_TIMEOUT_MS,
            timeout_read: ATTEMPT_TIMEOUT_MS,
            timeout_write: ATTEMPT_TIMEOUT_MS,
            ..old(req)@
        }),
{
    req.timeout_connect = ATTEMPT_TIMEOUT_MS;
    req.timeout_read = ATTEMPT_TIMEOUT_MS;
    req.timeout_write = ATTEMPT_TIMEOUT_MS;
}

/// One header of a response. Names are compared without regard to the
/// case of ASCII letters.
#[derive(Debug, Clone, PartialEq, Eq)]
pub struct Header {
    pub name: String,
    pub value: String,
}

/// What the transport hands back for one attempt: the status, the headers
/// in the order in which they arrived, and the body as text.
#[derive(Debug, Clone, PartialEq, Eq)]
pub struct HttpResponse {
    pub status: u16,
    pub headers: Vec<Header>,
    pub body: String,
}

/// `c` in lower case, if it is an ASCII letter; `c` itself if not.
pub open spec fn lower(c: char) -> char {
    if 'A' <= c && c <= 'Z' {
        ((c as u8) + 32) as char
    } else {
        c
    }
}

/// Whether `a` and `b` are the same header name: the same characters but
/// for the case of ASCII letters.
pub open spec fn same_name(a: Seq<char>, b: Seq<char>) -> bool {
    a.map_values(|c: char| lower(c)) == b.map_values(|c: char| lower(c))
}

/// `c` in lower case, if it is an ASCII letter.
pub fn lower_char(c: char) -> (res: char)
    ensures
        res == lower(c),
{
    if 'A' <= c && c <= 'Z' {
        ((c as u8) + 32) as char
    } else {
        c
    }
}

/// Whether `a` and `b` are the same header name.
pub fn is_same_name(a: &str, b: &str) -> (res: bool)
    ensures
        res == same_name(a@, b@),
{
    let ghost la = a@.map_values(|c: char| lower(c));
    let ghost lb = b@.map_values(|c: char| lower(c));
    let n = a.unicode_len();
    if n != b.unicode_len() {
        assert(la.len() != lb.len());
        return false;
    }
    let mut i: usize = 0;
    while i < n
        invariant
            i <= n,
            n == a@.len(),
            n == b@.len(),
            la == a@.map_values(|c: char| lower(c)),
            lb == b@.map_values(|c: char| lower(c)),
            forall|j: int| 0 <= j < i ==> la[j] == lb[j],
        decreases n - i,
    {
        if lower_char(a.get_char(i)) != lower_char(b.get_char(i)) {
            assert(la[i as int] != lb[i as int]);
            return false;
        }
        i += 1;
    }
    assert(la =~= lb);
    true
}

/// The value of the first of `headers` that is named `name`, without regard
/// to the case of ASCII letters.
pub open spec fn first_header(headers: Seq<Header>, name: Seq<char>) -> Option<Seq<char>>
    decreases headers.len(),
{
    if headers.len() == 0 {
        None
    } else if same_name(headers[0].name@, name) {
        Some(headers[0].value@)
    } else {
        first_header(headers.skip(1), name)
    }
}

/// Whether `status` lies in the success range.
pub open spec fn is_success(status: u16) -> bool {
    200 <= status <= 299
}

impl HttpResponse {
    /// Whether the status lies in the success range, 200 to 299.
    pub fn ok(&self) -> (res: bool)
        ensures
            res == is_success(self.status),
    {
        self.status >= 200 && self.status <= 299
    }

    /// The value of the first header named `name`, if there is one. The
    /// case of ASCII letters in the names does not count.
    pub fn header(&self, name: &str) -> (res: Option<String>)
        ensures
            opt_view(res) == first_header(self.headers@, name@),
    {
        let mut i: usize = 0;
        assert(self.headers@.skip(0) =~= self.headers@);
        while i < self.headers.len()
            invariant
                i <= self.headers.len(),
                first_header(self.headers@, name@) == first_header(
                    self.headers@.skip(i as int),
                    name@,
                ),
            decreases self.headers.len() - i,
        {
            if is_same_name(self.headers[i].name.as_str(), name) {
                return Some(self.headers[i].value.clone());
            }
            assert(self.headers@.skip(i as int).skip(1) =~= self.headers@.skip(i + 1));
            i += 1;
        }
        None
    }
}

/// The value of the header `name` of `res`, which the protocol requires.
///
/// Fails with `MissingField`, naming the header, exactly when the response
/// has no such header.
pub fn expect_header(res: &HttpResponse, name: &str) -> (out: Result<String, Error>)
    ensures
        match first_header(res.headers@, name@) {
            Some(value) => out matches Ok(s) && s@ == value,
            None => out matches Err(e) && e@ == (ErrorView::MissingField { name: name@ }),
        },
{
    match res.header(name) {
        Some(value) => Ok(value),
        None => Err(Error::MissingField { name: String::from_str(name) }),
    }
}

} // verus!
