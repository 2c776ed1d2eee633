use std::time::Duration;
use vn::error::request_failed_message;
use vn::vndb::{check_status, check_token, request_headers, user_lookup_params};
use vn::wire::{decimal_string, join_commas, json_string, same_text};
use vn::{Endpoint, Error, FieldSet, Token, UserField, UserUrlQuery, VndbBuilder};

#[test]
fn builder_defaults_and_zero_concurrency() {
    let builder = VndbBuilder::new();
    assert_eq!(builder.concurrency(), 10);
    assert_eq!(VndbBuilder::default().max_concurrent_requests(0).concurrency(), 10);
    assert_eq!(VndbBuilder::new().max_concurrent_requests(3).concurrency(), 3);
    let (n, token, delay, timeout, agent) = VndbBuilder::new()
        .max_concurrent_requests(3)
        .token(Token::from("abc"))
        .delay(Duration::from_millis(250))
        .timeout(Duration::from_secs(5))
        .user_agent("tester/1")
        .into_settings();
    assert_eq!(n, 3);
    assert_eq!(token.unwrap().as_str(), "abc");
    assert_eq!(delay, Some(Duration::from_millis(250)));
    assert_eq!(timeout, Some(Duration::from_secs(5)));
    assert_eq!(agent.as_deref(), Some("tester/1"));
}

#[test]
fn token_header() {
    assert_eq!(Token::from("abc-123".to_owned()).to_header(), "Token abc-123");
}

#[test]
fn headers_of_a_request() {
    let token = Token::new("t");
    let headers = request_headers(true, Some(&token), None);
    assert_eq!(
        headers,
        vec![
            ("content-type", "application/json".to_owned()),
            ("authorization", "Token t".to_owned()),
            ("user-agent", "vn/0.1.0".to_owned()),
        ]
    );
    let headers = request_headers(false, None, Some("me/2"));
    assert_eq!(headers, vec![("user-agent", "me/2".to_owned())]);
}

#[test]
fn token_is_checked_before_sending() {
    assert!(matches!(check_token(Endpoint::AuthInfo, false), Err(Error::Unauthorized)));
    assert!(check_token(Endpoint::AuthInfo, true).is_ok());
    assert!(check_token(Endpoint::Stats, false).is_ok());
    assert!(Error::Unauthorized.is_token_needed());
    assert!(!Error::Disconnected.is_token_needed());
    assert!(Error::Disconnected.is_disconnected());
}

#[test]
fn status_outside_2xx_fails() {
    assert!(check_status(200, "OK").is_ok());
    assert!(check_status(299, "").is_ok());
    match check_status(404, "Not Found") {
        Err(Error::RequestFailed { status, reason }) => {
            assert_eq!(status, Some(404));
            assert_eq!(reason, "Not Found");
        }
        _ => panic!("404 must fail"),
    }
    assert!(check_status(199, "").is_err());
    assert!(check_status(300, "").is_err());
}

#[test]
fn error_messages() {
    assert_eq!(request_failed_message(Some(404), "Not Found"), "[404] Not Found");
    assert_eq!(request_failed_message(None, "timed out"), "request failed: timed out");
    assert_eq!(Error::InvalidId("x1".to_owned()).message(), "\"x1\" is not a valid id");
    assert_eq!(Error::Disconnected.message(), "client disconnected");
    assert_eq!(Error::Unauthorized.message(), "unauthorized: token needed");
    let failed = Error::RequestFailed { status: Some(500), reason: "boom".to_owned() };
    assert_eq!(failed.message(), "[500] boom");
}

#[test]
fn user_lookup_parameters() {
    let mut query = UserUrlQuery::from(500);
    query.insert("u1000");
    let params = user_lookup_params(query, FieldSet::from_fields(vec![UserField::LengthVotes]))
        .unwrap()
        .into_pairs();
    assert_eq!(params.len(), 3);
    assert_eq!(params[2], ("fields", "lengthvotes".to_owned()));
    let mut qs: Vec<String> = params[..2].iter().map(|(k, v)| {
        assert_eq!(*k, "q");
        v.clone()
    }).collect();
    qs.sort();
    assert_eq!(qs, vec!["u1000".to_owned(), "u500".to_owned()]);
    assert!(user_lookup_params(UserUrlQuery::new(), FieldSet::all()).is_none());
}

#[test]
fn wire_text_helpers() {
    assert_eq!(decimal_string(0), "0");
    assert_eq!(decimal_string(1234), "1234");
    assert_eq!(json_string("a\"b\n"), "\"a\\\"b\\n\"");
    assert_eq!(join_commas(&vec!["x".to_owned(), "y".to_owned(), "z".to_owned()]), "x,y,z");
    assert_eq!(join_commas(&vec![]), "");
    assert!(same_text("ab", "ab"));
    assert!(!same_text("ab", "ba"));
}

#[test]
fn outside_errors_convert() {
    let json_error = serde_json::from_str::<serde_json::Value>("[1,").unwrap_err();
    let error = Error::from(json_error);
    assert!(matches!(error, Error::Json(_)));
    assert!(error.message().starts_with("failed to parse JSON: "));
    let http_error = reqwest::Client::new().get("not a url").build().unwrap_err();
    match Error::from(http_error) {
        Error::RequestFailed { status, reason } => {
            assert_eq!(status, None);
            assert!(!reason.is_empty());
        }
        _ => panic!("an HTTP client error is a failed request"),
    }
}
