use acme_lib::error::Error;
use acme_lib::http::{
    configure_req, expect_header, is_same_name, lower_char, Header, HttpRequest, HttpResponse,
    Method,
};

fn response(status: u16) -> HttpResponse {
    HttpResponse {
        status,
        headers: vec![
            Header { name: "content-type".to_string(), value: "text/plain".to_string() },
            Header { name: "replay-nonce".to_string(), value: "first".to_string() },
            Header { name: "replay-nonce".to_string(), value: "second".to_string() },
        ],
        body: "hello".to_string(),
    }
}

#[test]
fn a_new_request_has_no_body_and_no_timeouts() {
    let req = HttpRequest::new(Method::Get, "http://x.test/a");
    assert_eq!(req.method, Method::Get);
    assert_eq!(req.url, "http://x.test/a");
    assert_eq!(req.content_type, None);
    assert_eq!(req.body, None);
    assert_eq!((req.timeout_connect, req.timeout_read, req.timeout_write), (0, 0, 0));
}

#[test]
fn configure_req_sets_the_three_timeouts_only() {
    let mut req = HttpRequest::new(Method::Post, "http://x.test/a");
    req.body = Some("b".to_string());
    req.content_type = Some("c".to_string());
    configure_req(&mut req);
    assert_eq!(req.timeout_connect, 30_000);
    assert_eq!(req.timeout_read, 30_000);
    assert_eq!(req.timeout_write, 30_000);
    assert_eq!(req.method, Method::Post);
    assert_eq!(req.url, "http://x.test/a");
    assert_eq!(req.body.as_deref(), Some("b"));
    assert_eq!(req.content_type.as_deref(), Some("c"));
}

#[test]
fn the_success_range_is_200_to_299() {
    assert!(!response(199).ok());
    assert!(response(200).ok());
    assert!(response(204).ok());
    assert!(response(299).ok());
    assert!(!response(300).ok());
    assert!(!response(400).ok());
    assert!(!response(500).ok());
}

#[test]
fn header_gives_the_first_of_that_name() {
    let res = response(200);
    assert_eq!(res.header("replay-nonce"), Some("first".to_string()));
    assert_eq!(res.header("content-type"), Some("text/plain".to_string()));
    assert_eq!(res.header("location"), None);
    assert_eq!(res.header(""), None);
}

#[test]
fn expect_header_names_the_header_that_is_missing() {
    let res = response(200);
    assert_eq!(expect_header(&res, "replay-nonce"), Ok("first".to_string()));
    assert_eq!(
        expect_header(&res, "location"),
        Err(Error::MissingField { name: "location".to_string() })
    );
}

#[test]
fn header_names_are_compared_without_regard_to_ascii_case() {
    let res = response(200);
    assert_eq!(res.header("Replay-Nonce"), Some("first".to_string()));
    assert_eq!(res.header("CONTENT-TYPE"), Some("text/plain".to_string()));
    assert_eq!(res.header("replay_nonce"), None);
    let mixed = HttpResponse {
        status: 200,
        headers: vec![Header { name: "Location".to_string(), value: "here".to_string() }],
        body: String::new(),
    };
    assert_eq!(expect_header(&mixed, "location"), Ok("here".to_string()));
    assert_eq!(expect_header(&mixed, "LOCATION"), Ok("here".to_string()));
}

#[test]
fn only_ascii_letters_change_case() {
    assert_eq!(lower_char('A'), 'a');
    assert_eq!(lower_char('Z'), 'z');
    assert_eq!(lower_char('a'), 'a');
    assert_eq!(lower_char('@'), '@');
    assert_eq!(lower_char('['), '[');
    assert_eq!(lower_char('-'), '-');
    assert_eq!(lower_char('\u{c9}'), '\u{c9}');
    assert!(is_same_name("Replay-Nonce", "replay-nonce"));
    assert!(is_same_name("", ""));
    assert!(!is_same_name("replay-nonce", "replay-nonc"));
    assert!(!is_same_name("a-b", "a_b"));
    assert!(!is_same_name("\u{c9}", "\u{e9}"));
    assert!(is_same_name("\u{e9}X", "\u{e9}x"));
}
