//! Tests for the token exchange: request building and response
//! interpretation.
use twitter_cursor::auth::{basic_auth_header, ApplicationAuth, Twitter};
use twitter_cursor::errors::Error;

fn creds() -> ApplicationAuth {
    ApplicationAuth { key: "key".to_owned(), secret: "secret".to_owned() }
}

#[test]
fn token_request_carries_basic_auth_and_grant_body() {
    let req = Twitter::token_request(&creds());
    assert_eq!(req.url, "https://api.twitter.com/oauth2/token");
    assert_eq!(req.authorization, "Basic a2V5OnNlY3JldA==");
    assert_eq!(req.content_type, "application/x-www-form-urlencoded; charset=utf-8");
    assert_eq!(req.body, "grant_type=client_credentials");
}

#[test]
fn basic_auth_header_encodes_key_and_secret() {
    let header = basic_auth_header(&ApplicationAuth {
        key: "foo".to_owned(),
        secret: "bar".to_owned(),
    });
    assert_eq!(header, "Basic Zm9vOmJhcg==");
}

#[test]
fn successful_exchange_yields_the_bearer_token() {
    let body = br#"{"token_type":"bearer","access_token":"abc123"}"#;
    let twit = Twitter::from_token_response(200, body).unwrap();
    assert_eq!(twit.bearer().as_str(), "abc123");
}

#[test]
fn auth_failure_surfaces_the_server_message() {
    let body = br#"{"errors":[{"message":"Invalid credentials"}]}"#;
    match Twitter::from_token_response(403, body) {
        Err(Error::Auth(m)) => assert_eq!(m, "Invalid credentials"),
        other => panic!("expected an auth error, got {:?}", other),
    }
}

#[test]
fn wrong_token_type_is_a_protocol_error() {
    let body = br#"{"token_type":"mac","access_token":"abc"}"#;
    assert_eq!(Twitter::from_token_response(200, body), Err(Error::Protocol));
}

#[test]
fn missing_access_token_is_a_protocol_error() {
    let body = br#"{"token_type":"bearer"}"#;
    assert_eq!(Twitter::from_token_response(200, body), Err(Error::Protocol));
}

#[test]
fn error_array_of_wrong_length_is_a_protocol_error() {
    let two = br#"{"errors":[{"message":"a"},{"message":"b"}]}"#;
    assert_eq!(Twitter::from_token_response(403, two), Err(Error::Protocol));
    let zero = br#"{"errors":[]}"#;
    assert_eq!(Twitter::from_token_response(403, zero), Err(Error::Protocol));
}

#[test]
fn non_object_or_unparsable_body_is_a_protocol_error() {
    assert_eq!(Twitter::from_token_response(200, br#"[1,2]"#), Err(Error::Protocol));
    assert_eq!(Twitter::from_token_response(500, b"not json"), Err(Error::Protocol));
}
