//! The retry policy of a call: a bounded number of immediate attempts, with
//! one status that ends the call at once.
//!
//! [`RetryingCall`] holds the policy for an exchange that is driven from
//! outside, response by response. [`retry_call`] runs a whole call for a
//! caller that has a function to build a request and one to send it.

use crate::error::{Error, ErrorView};
use crate::http::{
    configure_req, is_success, HttpRequest, HttpRequestView, HttpResponse, ATTEMPT_TIMEOUT_MS,
};
use vstd::prelude::*;

verus! {

/// The number of attempts that a call may make.
pub const MAX_ATTEMPTS: u8 = 3;

/// The status with which the authority rejects a request for good.
pub const BAD_REQUEST: u16 = 400;

/// What a response means for a call of which `failed` attempts have failed
/// before it.
pub enum Judgement {
    /// The response is the result of the call.
    Accept,
    /// The attempt failed and another one is due.
    Again,
    /// The authority rejected the request; no retry can mend that.
    Rejected,
    /// The attempt failed and it was the last one.
    Exhausted,
}

/// The rule of the policy: success ends the call; a bad request ends it
/// without a retry; any other failure is retried until the attempts are used
/// up.
pub open spec fn judge(failed: nat, status: u16) -> Judgement {
    if is_success(status) {
        Judgement::Accept
    } else if status == BAD_REQUEST {
        Judgement::Rejected
    } else if failed + 1 >= MAX_ATTEMPTS {
        Judgement::Exhausted
    } else {
        Judgement::Again
    }
}

/// How a call ends against an authority that answers the attempts with
/// `statuses`, in this order.
pub enum Outcome {
    /// The attempt of this number, counted from one, succeeded.
    Succeeded { attempts: nat },
    /// The attempt of this number was rejected.
    Rejected { attempts: nat },
    /// The attempt of this number failed and was the last one allowed.
    Exhausted { attempts: nat },
    /// The answers ran out before the call ended.
    Unfinished,
}

/// The end of a call with `failed` failed attempts behind it.
pub open spec fn outcome(failed: nat, statuses: Seq<u16>) -> Outcome
    decreases statuses.len(),
{
    if statuses.len() == 0 {
        Outcome::Unfinished
    } else {
        match judge(failed, statuses[0]) {
            Judgement::Accept => Outcome::Succeeded { attempts: failed + 1 },
            Judgement::Rejected => Outcome::Rejected { attempts: failed + 1 },
            Judgement::Exhausted => Outcome::Exhausted { attempts: failed + 1 },
            Judgement::Again => outcome(failed + 1, statuses.skip(1)),
        }
    }
}

/// Whether `status` is a failure that a retry may mend.
pub open spec fn is_transient(status: u16) -> bool {
    !is_success(status) && status != BAD_REQUEST
}

/// A call in progress: it knows how many of its attempts have failed.
#[derive(Debug, Clone, Copy)]
pub struct RetryingCall {
    failed: u8,
}

/// What became of a call when a response came in.
#[derive(Debug)]
pub enum Verdict {
    /// The call succeeded with this response.
    Success(HttpResponse),
    /// The attempt failed. Build a new request and send it for the call that
    /// is carried here.
    Retry(RetryingCall),
    /// The call failed for good.
    Failed(Error),
}

impl RetryingCall {
    #[verifier::type_invariant]
    spec fn in_budget(self) -> bool {
        self.failed < MAX_ATTEMPTS
    }

    /// The number of attempts that have failed.
    pub closed spec fn failed(self) -> nat {
        self.failed as nat
    }

    /// A call of which no attempt has been made.
    pub fn new() -> (call: RetryingCall)
        ensures
            call.failed() == 0,
    {
        RetryingCall { failed: 0 }
    }

    /// The number of the attempt that is due, counted from one.
    pub fn attempt(&self) -> (n: u8)
        ensures
            n == self.failed() + 1,
            1 <= n <= MAX_ATTEMPTS,
    {
        proof {
            use_type_invariant(self);
        }
        self.failed + 1
    }

    /// Takes the response to the attempt that was due and says how the call
    /// goes on.
    ///
    /// A failure carries the status and the body of this response:
    /// `TerminalCall` where the authority rejected the request, `Network`
    /// where the last attempt failed.
    pub fn on_response(self, res: HttpResponse) -> (verdict: Verdict)
        ensures
            match judge(self.failed(), res.status) {
                Judgement::Accept => verdict matches Verdict::Success(r) && r == res,
                Judgement::Again => verdict matches Verdict::Retry(next) && next.failed()
                    == self.failed() + 1,
                Judgement::Rejected => verdict matches Verdict::Failed(e) && e@ == (
                ErrorView::TerminalCall { status: res.status, body: res.body@ }),
                Judgement::Exhausted => verdict matches Verdict::Failed(e) && e@ == (
                ErrorView::Network { status: res.status, body: res.body@ }),
            },
    {
        proof {
            use_type_invariant(self);
        }
        if res.ok() {
            Verdict::Success(res)
        } else if res.status == BAD_REQUEST {
            Verdict::Failed(Error::TerminalCall { status: res.status, body: res.body })
        } else if self.failed + 1 >= MAX_ATTEMPTS {
            Verdict::Failed(Error::Network { status: res.status, body: res.body })
        } else {
            Verdict::Retry(RetryingCall { failed: self.failed + 1 })
        }
    }
}

/// One attempt of a call: the request as the builder handed it out, the
/// request as it was sent, and the response that came back.
pub struct Attempt {
    pub built: HttpRequest,
    pub sent: HttpRequest,
    pub response: HttpResponse,
}

/// `req` with the timeouts of an attempt.
pub open spec fn configured(req: HttpRequestView) -> HttpRequestView {
    HttpRequestView {
        timeout_connect: ATTEMPT_TIMEOUT_MS,
        timeout_read: ATTEMPT_TIMEOUT_MS,
        timeout_write: ATTEMPT_TIMEOUT_MS,
        ..req
    }
}

/// Whether `attempt` is an attempt that `build` and `send` made: an
/// invocation of `build` handed the request out, it was sent with the
/// timeouts set and otherwise unchanged, and `send` gave the response for
/// it.
pub open spec fn is_attempt<F: Fn() -> Result<HttpRequest, Error>, S: Fn(HttpRequest) -> HttpResponse>(
    build: F,
    send: S,
    attempt: Attempt,
) -> bool {
    &&& call_ensures(build, (), Ok::<HttpRequest, Error>(attempt.built))
    &&& attempt.sent@ == configured(attempt.built@)
    &&& call_ensures(send, (attempt.sent,), attempt.response)
}

/// Whether a call that ends with the response to the attempt after `failed`
/// failed ones ends in `res`.
pub open spec fn ends_in(failed: nat, response: HttpResponse, res: Result<HttpResponse, Error>) -> bool {
    match judge(failed, response.status) {
        Judgement::Accept => res == Ok::<HttpResponse, Error>(response),
        Judgement::Rejected => res matches Err(e) && e@ == (ErrorView::TerminalCall {
            status: response.status,
            body: response.body@,
        }),
        Judgement::Exhausted => res matches Err(e) && e@ == (ErrorView::Network {
            status: response.status,
            body: response.body@,
        }),
        Judgement::Again => false,
    }
}

/// Whether `res` is the end of a call that made `attempts`, in this order.
///
/// Each attempt sends the request of its own invocation of the builder.
/// Every attempt but the last failed in a way that asks for another. The
/// call ends with the last attempt as the policy says, or, before an
/// attempt that was still due, with the failure of the builder.
pub open spec fn is_run<F: Fn() -> Result<HttpRequest, Error>, S: Fn(HttpRequest) -> HttpResponse>(
    build: F,
    send: S,
    attempts: Seq<Attempt>,
    res: Result<HttpResponse, Error>,
) -> bool {
    &&& attempts.len() <= MAX_ATTEMPTS
    &&& forall|k: int| 0 <= k < attempts.len() ==> is_attempt(build, send, #[trigger] attempts[k])
    &&& forall|k: int|
        0 <= k < attempts.len() - 1 ==> judge(k as nat, (#[trigger] attempts[k]).response.status)
            == Judgement::Again
    &&& {
        ||| attempts.len() > 0 && ends_in(
            (attempts.len() - 1) as nat,
            attempts.last().response,
            res,
        )
        ||| {
            &&& attempts.len() < MAX_ATTEMPTS
            &&& attempts.len() > 0 ==> judge(
                (attempts.len() - 1) as nat,
                attempts.last().response.status,
            ) == Judgement::Again
            &&& res matches Err(e) && call_ensures(build, (), Err::<HttpRequest, Error>(e))
        }
    }
}

/// Makes a call: builds a request, sends it, and does so again while the
/// policy asks for it.
///
/// `build` is invoked anew before every attempt, so that what an attempt
/// needs fresh, such as a nonce and the signature over it, is never sent
/// twice: the request of an attempt is the one that its own invocation
/// handed out, with the timeouts set. A failure of `build` ends the call
/// with that failure.
pub fn retry_call<F: Fn() -> Result<HttpRequest, Error>, S: Fn(HttpRequest) -> HttpResponse>(
    build: F,
    send: S,
) -> (res: Result<HttpResponse, Error>)
    requires
        call_requires(build, ()),
        forall|req: HttpRequest| call_requires(send, (req,)),
    ensures
        exists|attempts: Seq<Attempt>| is_run(build, send, attempts, res),
{
    let mut call = RetryingCall::new();
    let ghost mut attempts: Seq<Attempt> = Seq::empty();
    loop
        invariant
            call_requires(build, ()),
            forall|req: HttpRequest| call_requires(send, (req,)),
            attempts.len() == call.failed(),
            call.failed() < MAX_ATTEMPTS,
            forall|k: int| 0 <= k < attempts.len() ==> is_attempt(build, send, #[trigger] attempts[k]),
            forall|k: int|
                0 <= k < attempts.len() ==> judge(
                    k as nat,
                    (#[trigger] attempts[k]).response.status,
                ) == Judgement::Again,
        decreases MAX_ATTEMPTS - call.failed(),
    {
        let built = match build() {
            Ok(built) => built,
            Err(e) => {
                let res = Err(e);
                assert(is_run(build, send, attempts, res));
                return res;
            },
        };
        let ghost as_built = built;
        let mut req = built;
        configure_req(&mut req);
        let ghost sent = req;
        let response = send(req);
        let ghost attempt = Attempt { built: as_built, sent, response };
        let ghost made = attempts.push(attempt);
        let ghost failed = call.failed();
        assert(made.last() == attempt);
        assert(forall|k: int| 0 <= k < attempts.len() ==> made[k] == attempts[k]);
        match call.on_response(response) {
            Verdict::Success(response) => {
                let res = Ok(response);
                assert(is_run(build, send, made, res));
                return res;
            },
            Verdict::Retry(next) => {
                call = next;
                proof {
                    attempts = made;
                }
            },
            Verdict::Failed(e) => {
                let res = Err(e);
                assert(is_run(build, send, made, res));
                return res;
            },
        }
    }
}

/// A call never makes more than [`MAX_ATTEMPTS`] attempts: whatever the
/// authority answers, a call that ends does so at one of the first three
/// attempts, and three answers always end it.
pub proof fn lemma_attempts_are_bounded(statuses: Seq<u16>)
    ensures
        match outcome(0, statuses) {
            Outcome::Succeeded { attempts } => 1 <= attempts <= MAX_ATTEMPTS,
            Outcome::Rejected { attempts } => 1 <= attempts <= MAX_ATTEMPTS,
            Outcome::Exhausted { attempts } => attempts == MAX_ATTEMPTS,
            Outcome::Unfinished => statuses.len() < MAX_ATTEMPTS,
        },
{
    reveal_with_fuel(outcome, 4);
    if statuses.len() >= 1 {
        assert(statuses.skip(1).len() == statuses.len() - 1);
        if statuses.len() >= 2 {
            assert(statuses.skip(1).skip(1).len() == statuses.len() - 2);
        }
    }
}

/// Three transient failures in a row end the call at the third attempt, and
/// no earlier.
pub proof fn lemma_three_failures_exhaust(s1: u16, s2: u16, s3: u16)
    requires
        is_transient(s1),
        is_transient(s2),
        is_transient(s3),
    ensures
        judge(0, s1) == Judgement::Again,
        judge(1, s2) == Judgement::Again,
        judge(2, s3) == Judgement::Exhausted,
        outcome(0, seq![s1, s2, s3]) == (Outcome::Exhausted { attempts: 3 }),
        outcome(0, seq![s1, s2]) == Outcome::Unfinished,
{
    reveal_with_fuel(outcome, 4);
    let all = seq![s1, s2, s3];
    assert(all.skip(1) =~= seq![s2, s3]);
    assert(all.skip(1).skip(1) =~= seq![s3]);
    let two = seq![s1, s2];
    assert(two.skip(1) =~= seq![s2]);
    assert(two.skip(1).skip(1) =~= Seq::<u16>::empty());
}

/// A transient failure followed by a success ends the call in success at
/// the second attempt.
pub proof fn lemma_retry_recovers(s1: u16, s2: u16)
    requires
        is_transient(s1),
        is_success(s2),
    ensures
        outcome(0, seq![s1, s2]) == (Outcome::Succeeded { attempts: 2 }),
{
    reveal_with_fuel(outcome, 3);
    assert(seq![s1, s2].skip(1) =~= seq![s2]);
}

/// A bad request ends the call at the attempt that met it, however many
/// attempts are left and whatever the authority would have answered next.
pub proof fn lemma_bad_request_is_terminal(failed: nat, rest: Seq<u16>)
    ensures
        judge(failed, BAD_REQUEST) == Judgement::Rejected,
        outcome(failed, seq![BAD_REQUEST] + rest) == (Outcome::Rejected { attempts: failed + 1 }),
{
    assert((seq![BAD_REQUEST] + rest)[0] == BAD_REQUEST);
}

} // verus!
