use keybot::auth::{authorizationCode, authorizePayload, tokenPayload, CALLBACK_PORT};
use keybot::error::Error;
use keybot::simple_http_server::QueryParams;

fn params(pairs: &[(&str, &str)]) -> QueryParams {
    let mut params = QueryParams::new();
    for (key, value) in pairs {
        params.insert(key.to_string(), value.to_string());
    }
    params
}

#[test]
fn the_callback_brings_the_code() {
    let p = params(&[("state", "s-1"), ("code", "c-9")]);
    assert_eq!(authorizationCode(&p, "s-1").ok(), Some("c-9".to_string()));
}

#[test]
fn the_callback_reports_the_error_of_the_feed() {
    let p = params(&[("error", "access_denied"), ("state", "s-1")]);
    match authorizationCode(&p, "s-1") {
        Err(Error::RedditError(m)) => assert_eq!(m, "Failed to authenticate: access_denied"),
        _ => panic!("expected the error of the feed"),
    }
}

#[test]
fn the_callback_must_echo_the_state() {
    let p = params(&[("state", "s-2"), ("code", "c-9")]);
    match authorizationCode(&p, "s-1") {
        Err(Error::RedditError(m)) => assert_eq!(m, "Invalid state string"),
        _ => panic!("expected an error"),
    }
}

#[test]
fn the_payloads_are_spelled_out() {
    let pair = |a: &str, b: &str| (a.to_string(), b.to_string());
    assert_eq!(CALLBACK_PORT, 31416);
    assert_eq!(
        authorizePayload("my-id", "s-1"),
        vec![
            pair("client_id", "my-id"),
            pair("response_type", "code"),
            pair("state", "s-1"),
            pair("redirect_uri", "http://localhost:31416/"),
            pair("duration", "temporary"),
            pair(
                "scope",
                "identity edit flair history mysubreddits privatemessages read report save \
                 submit subscribe vote wikiedit wikiread"
            ),
        ]
    );
    assert_eq!(
        tokenPayload("c-9"),
        vec![
            pair("grant_type", "authorization_code"),
            pair("code", "c-9"),
            pair("redirect_uri", "http://localhost:31416/"),
        ]
    );
}
