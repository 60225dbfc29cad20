use acme_lib::error::Error;
use acme_lib::http::{HttpRequest, HttpResponse, Method};
use acme_lib::retry::{retry_call, RetryingCall, Verdict, BAD_REQUEST, MAX_ATTEMPTS};
use std::cell::RefCell;

fn response(status: u16, body: &str) -> HttpResponse {
    HttpResponse { status, headers: vec![], body: body.to_string() }
}

fn retried(call: RetryingCall, status: u16) -> RetryingCall {
    match call.on_response(response(status, "again")) {
        Verdict::Retry(next) => next,
        other => panic!("no retry: {:?}", other),
    }
}

#[test]
fn the_policy_allows_three_attempts() {
    assert_eq!(MAX_ATTEMPTS, 3);
    assert_eq!(BAD_REQUEST, 400);
    assert_eq!(RetryingCall::new().attempt(), 1);
}

#[test]
fn success_ends_the_call_with_the_response() {
    match RetryingCall::new().on_response(response(200, "fine")) {
        Verdict::Success(res) => assert_eq!(res, response(200, "fine")),
        other => panic!("no success: {:?}", other),
    }
}

#[test]
fn three_transient_failures_exhaust_the_call() {
    let call = RetryingCall::new();
    let call = retried(call, 500);
    assert_eq!(call.attempt(), 2);
    let call = retried(call, 404);
    assert_eq!(call.attempt(), 3);
    match call.on_response(response(503, "still down")) {
        Verdict::Failed(e) => {
            assert_eq!(e, Error::Network { status: 503, body: "still down".to_string() })
        }
        other => panic!("no failure: {:?}", other),
    }
}

#[test]
fn a_failure_then_a_success_recovers() {
    let call = retried(RetryingCall::new(), 500);
    match call.on_response(response(201, "made")) {
        Verdict::Success(res) => assert_eq!(res.status, 201),
        other => panic!("no success: {:?}", other),
    }
}

#[test]
fn a_bad_request_is_terminal_at_every_attempt() {
    let expected = Error::TerminalCall { status: 400, body: "bad nonce".to_string() };
    let first = RetryingCall::new();
    match first.on_response(response(400, "bad nonce")) {
        Verdict::Failed(e) => assert_eq!(e, expected),
        other => panic!("no failure: {:?}", other),
    }
    let second = retried(RetryingCall::new(), 500);
    match second.on_response(response(400, "bad nonce")) {
        Verdict::Failed(e) => assert_eq!(e, expected),
        other => panic!("no failure: {:?}", other),
    }
    let third = retried(retried(RetryingCall::new(), 500), 500);
    match third.on_response(response(400, "bad nonce")) {
        Verdict::Failed(e) => assert_eq!(e, expected),
        other => panic!("no failure: {:?}", other),
    }
}

#[test]
fn statuses_beside_the_success_range_are_failures() {
    assert_eq!(retried(RetryingCall::new(), 199).attempt(), 2);
    assert_eq!(retried(RetryingCall::new(), 300).attempt(), 2);
    assert_eq!(retried(RetryingCall::new(), 401).attempt(), 2);
    assert_eq!(retried(RetryingCall::new(), 0).attempt(), 2);
}

/// A builder that numbers its requests, and a transport that answers from a
/// script and notes what it was sent.
struct Script {
    built: RefCell<u32>,
    statuses: RefCell<Vec<u16>>,
    sent: RefCell<Vec<HttpRequest>>,
}

impl Script {
    fn new(statuses: &[u16]) -> Script {
        Script {
            built: RefCell::new(0),
            statuses: RefCell::new(statuses.to_vec()),
            sent: RefCell::new(Vec::new()),
        }
    }

    fn build(&self) -> Result<HttpRequest, Error> {
        *self.built.borrow_mut() += 1;
        let n = *self.built.borrow();
        let mut req = HttpRequest::new(Method::Post, &format!("http://a.test/{}", n));
        req.body = Some(format!("body {}", n));
        Ok(req)
    }

    fn send(&self, req: HttpRequest) -> HttpResponse {
        let status = self.statuses.borrow_mut().remove(0);
        let body = format!("answer to {}", req.url);
        self.sent.borrow_mut().push(req);
        response(status, &body)
    }

    fn sent_urls(&self) -> Vec<String> {
        self.sent.borrow().iter().map(|r| r.url.clone()).collect()
    }
}

#[test]
fn retry_call_builds_a_request_for_every_attempt() {
    let script = Script::new(&[500, 503, 200]);
    let res = retry_call(|| script.build(), |req| script.send(req)).unwrap();
    assert_eq!(res, response(200, "answer to http://a.test/3"));
    assert_eq!(*script.built.borrow(), 3);
    assert_eq!(script.sent_urls(), vec!["http://a.test/1", "http://a.test/2", "http://a.test/3"]);
    for (k, req) in script.sent.borrow().iter().enumerate() {
        assert_eq!(req.body, Some(format!("body {}", k + 1)));
        assert_eq!((req.timeout_connect, req.timeout_read, req.timeout_write), (30_000, 30_000, 30_000));
        assert_eq!(req.method, Method::Post);
    }
}

#[test]
fn retry_call_gives_up_after_three_attempts() {
    let script = Script::new(&[500, 502, 503, 200]);
    let err = retry_call(|| script.build(), |req| script.send(req)).unwrap_err();
    assert_eq!(
        err,
        Error::Network { status: 503, body: "answer to http://a.test/3".to_string() }
    );
    assert_eq!(*script.built.borrow(), 3);
    assert_eq!(script.sent.borrow().len(), 3);
}

#[test]
fn retry_call_stops_at_a_bad_request() {
    let script = Script::new(&[500, 400, 200]);
    let err = retry_call(|| script.build(), |req| script.send(req)).unwrap_err();
    assert_eq!(
        err,
        Error::TerminalCall { status: 400, body: "answer to http://a.test/2".to_string() }
    );
    assert_eq!(*script.built.borrow(), 2);
    assert_eq!(script.sent_urls(), vec!["http://a.test/1", "http://a.test/2"]);
}

#[test]
fn retry_call_succeeds_at_once_with_one_request() {
    let script = Script::new(&[204]);
    let res = retry_call(|| script.build(), |req| script.send(req)).unwrap();
    assert_eq!(res.status, 204);
    assert_eq!(*script.built.borrow(), 1);
    assert_eq!(script.sent.borrow().len(), 1);
}

#[test]
fn retry_call_passes_the_failure_of_the_builder_on() {
    let script = Script::new(&[500, 200]);
    let calls = RefCell::new(0);
    let build = || {
        *calls.borrow_mut() += 1;
        if *calls.borrow() == 2 {
            Err(Error::MissingField { name: "replay-nonce".to_string() })
        } else {
            script.build()
        }
    };
    let err = retry_call(build, |req| script.send(req)).unwrap_err();
    assert_eq!(err, Error::MissingField { name: "replay-nonce".to_string() });
    assert_eq!(*calls.borrow(), 2);
    assert_eq!(script.sent.borrow().len(), 1);
}
