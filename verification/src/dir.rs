//! Directory discovery: the well-known authorities and their endpoints.

use crate::api::{directory_in, ApiDirectory};
use crate::error::{Error, ErrorView};
use crate::persist::Persist;
use crate::http::{
    configure_req, expect_header, first_header, HttpRequest, HttpRequestView, HttpResponse,
    Method, ATTEMPT_TIMEOUT_MS,
};
use crate::retry::{judge, Judgement, RetryingCall, Verdict};
use vstd::prelude::*;
use vstd::string::StringExecFns;

verus! {

/// Directory URL of the Let's Encrypt production authority.
pub const LETSENCRYPT: &'static str = "https://acme-v02.api.letsencrypt.org/directory";

/// Directory URL of the Let's Encrypt staging authority.
pub const LETSENCRYPT_STAGING: &'static str =
    "https://acme-staging-v02.api.letsencrypt.org/directory";

/// Enumeration of known ACME API directories.
#[derive(Debug, Clone)]
pub enum DirectoryUrl<'a> {
    /// The main Let's Encrypt directory. Not appropriate for testing and dev.
    LetsEncrypt,
    /// The staging Let's Encrypt directory. Use for testing and dev. Doesn't issue
    /// "valid" certificates.
    LetsEncryptStaging,
    /// Provide an arbitrary directory URL to connect to.
    Other(&'a str),
}

impl<'a> DirectoryUrl<'a> {
    /// The URL that this choice of authority stands for.
    pub open spec fn url(&self) -> Seq<char> {
        match self {
            DirectoryUrl::LetsEncrypt => LETSENCRYPT@,
            DirectoryUrl::LetsEncryptStaging => LETSENCRYPT_STAGING@,
            DirectoryUrl::Other(s) => s@,
        }
    }

    /// Resolves the choice of authority to the URL of its directory document.
    pub fn to_url(&self) -> (res: &str)
        ensures
            res@ == self.url(),
    {
        match self {
            DirectoryUrl::LetsEncrypt => LETSENCRYPT,
            DirectoryUrl::LetsEncryptStaging => LETSENCRYPT_STAGING,
            DirectoryUrl::Other(s) => s,
        }
    }
}

/// The header in which the authority hands out a nonce.
pub const REPLAY_NONCE: &'static str = "replay-nonce";

/// How an exchange with the authority goes on after a response.
#[derive(Debug)]
pub enum Step<M, T> {
    /// Another request is due: ask the exchange carried here for it.
    Next(M),
    /// The exchange is over and this is its result.
    Finished(T),
    /// The exchange failed.
    Failed(Error),
}

/// The request of one attempt: the timeouts are set, the rest is as given.
pub open spec fn attempt_request(
    method: Method,
    url: Seq<char>,
    content_type: Option<Seq<char>>,
    body: Option<Seq<char>>,
) -> HttpRequestView {
    HttpRequestView {
        method,
        url,
        content_type,
        body,
        timeout_connect: ATTEMPT_TIMEOUT_MS,
        timeout_read: ATTEMPT_TIMEOUT_MS,
        timeout_write: ATTEMPT_TIMEOUT_MS,
    }
}

/// The error with which a call ends on a response that is no success, if it
/// ends on it: `failed` attempts have failed before.
pub open spec fn failure_of(failed: nat, status: u16, body: Seq<char>) -> Option<ErrorView> {
    match judge(failed, status) {
        Judgement::Rejected => Some(ErrorView::TerminalCall { status, body }),
        Judgement::Exhausted => Some(ErrorView::Network { status, body }),
        _ => None,
    }
}

/// A request without payload to `url`, ready to be sent.
pub fn plain_request(method: Method, url: &str) -> (req: HttpRequest)
    ensures
        req@ == attempt_request(method, url@, None, None),
{
    let mut req = HttpRequest::new(method, url);
    configure_req(&mut req);
    req
}

/// Entry point for accessing an ACME API: the endpoints of the authority,
/// over the store that keeps the account keys.
#[derive(Debug, Clone)]
pub struct Directory<P: Persist>(P, ApiDirectory);

impl<P: Persist> Directory<P> {
    /// The endpoints of the authority.
    pub closed spec fn api(&self) -> ApiDirectory {
        self.1
    }

    /// The store that the directory was made over.
    pub closed spec fn store(&self) -> P {
        self.0
    }

    /// Starts the discovery of the authority at `url`, over the store
    /// `persist`. No attempt has been made yet.
    pub fn from_url(persist: P, url: DirectoryUrl) -> (fetch: DirectoryFetch<P>)
        ensures
            fetch.url() == url.url(),
            fetch.failed() == 0,
            fetch.store() == persist,
    {
        DirectoryFetch { persist, url: String::from_str(url.to_url()), call: RetryingCall::new() }
    }

    /// Starts the fetch of a nonce. No attempt has been made yet.
    pub fn new_nonce(&self) -> (fetch: NonceFetch)
        ensures
            fetch.url() == self.api().new_nonce@,
            fetch.failed() == 0,
    {
        NonceFetch { url: self.1.new_nonce.clone(), call: RetryingCall::new() }
    }

    /// Access the endpoints that the directory document named.
    pub fn api_directory(&self) -> (api: &ApiDirectory)
        ensures
            *api == self.api(),
    {
        &self.1
    }

    /// The store that the directory was made over.
    pub fn persist(&self) -> (persist: &P)
        ensures
            *persist == self.store(),
    {
        &self.0
    }
}

/// The discovery of an authority in progress.
#[derive(Debug)]
pub struct DirectoryFetch<P: Persist> {
    persist: P,
    url: String,
    call: RetryingCall,
}

impl<P: Persist> DirectoryFetch<P> {
    /// The URL of the directory document.
    pub closed spec fn url(&self) -> Seq<char> {
        self.url@
    }

    /// The number of attempts that have failed.
    pub closed spec fn failed(&self) -> nat {
        self.call.failed()
    }

    /// The store that the directory will be made over.
    pub closed spec fn store(&self) -> P {
        self.persist
    }

    /// The request of the attempt that is due: a GET of the document.
    pub fn request(&self) -> (req: HttpRequest)
        ensures
            req@ == attempt_request(Method::Get, self.url(), None, None),
    {
        plain_request(Method::Get, self.url.as_str())
    }

    /// Takes the response to the attempt that was due.
    ///
    /// On success the body is read as the directory document. It fails
    /// with `Decode` where the body is no such document, and as the retry
    /// policy says where the attempt failed and no other is due.
    pub fn on_response(self, res: HttpResponse) -> (step: Step<DirectoryFetch<P>, Directory<P>>)
        ensures
            match judge(self.failed(), res.status) {
                Judgement::Accept => match directory_in(res.body@) {
                    Some(api) => step matches Step::Finished(directory) && directory.api()@ == api
                        && directory.store() == self.store(),
                    None => step matches Step::Failed(e) && e@ == (ErrorView::Decode {
                        encoding: crate::error::Encoding::Json,
                    }),
                },
                Judgement::Again => step matches Step::Next(next) && next.url() == self.url()
                    && next.failed() == self.failed() + 1 && next.store() == self.store(),
                _ => step matches Step::Failed(e) && Some(e@) == failure_of(
                    self.failed(),
                    res.status,
                    res.body@,
                ),
            },
    {
        match self.call.on_response(res) {
            Verdict::Success(res) => match ApiDirectory::from_json(res.body.as_str()) {
                Ok(api) => Step::Finished(Directory(self.persist, api)),
                Err(e) => Step::Failed(e),
            },
            Verdict::Retry(call) => Step::Next(
                DirectoryFetch { persist: self.persist, url: self.url, call },
            ),
            Verdict::Failed(e) => Step::Failed(e),
        }
    }
}

/// The fetch of a nonce in progress.
#[derive(Debug)]
pub struct NonceFetch {
    url: String,
    call: RetryingCall,
}

impl NonceFetch {
    /// The URL of the endpoint that hands out nonces.
    pub closed spec fn url(&self) -> Seq<char> {
        self.url@
    }

    /// The number of attempts that have failed.
    pub closed spec fn failed(&self) -> nat {
        self.call.failed()
    }

    /// The fetch of a nonce from the endpoint at `url`, of which no attempt
    /// has been made.
    pub fn new(url: &str) -> (fetch: NonceFetch)
        ensures
            fetch.url() == url@,
            fetch.failed() == 0,
    {
        NonceFetch { url: String::from_str(url), call: RetryingCall::new() }
    }

    /// The request of the attempt that is due: a HEAD of the endpoint.
    pub fn request(&self) -> (req: HttpRequest)
        ensures
            req@ == attempt_request(Method::Head, self.url(), None, None),
    {
        plain_request(Method::Head, self.url.as_str())
    }

    /// Takes the response to the attempt that was due.
    ///
    /// On success the nonce is the value of the `replay-nonce` header; a
    /// response without it fails with `MissingField`. Where the attempt
    /// failed, the retry policy says whether another is due.
    pub fn on_response(self, res: HttpResponse) -> (step: Step<NonceFetch, String>)
        ensures
            match judge(self.failed(), res.status) {
                Judgement::Accept => match first_header(res.headers@, REPLAY_NONCE@) {
                    Some(value) => step matches Step::Finished(nonce) && nonce@ == value,
                    None => step matches Step::Failed(e) && e@ == (ErrorView::MissingField {
                        name: REPLAY_NONCE@,
                    }),
                },
                Judgement::Again => step matches Step::Next(next) && next.url() == self.url()
                    && next.failed() == self.failed() + 1,
                _ => step matches Step::Failed(e) && Some(e@) == failure_of(
                    self.failed(),
                    res.status,
                    res.body@,
                ),
            },
    {
        match self.call.on_response(res) {
            Verdict::Success(res) => match expect_header(&res, REPLAY_NONCE) {
                Ok(nonce) => Step::Finished(nonce),
                Err(e) => Step::Failed(e),
            },
            Verdict::Retry(call) => Step::Next(NonceFetch { url: self.url, call }),
            Verdict::Failed(e) => Step::Failed(e),
        }
    }
}

} // verus!
