use portal_token::HttpOutcome;
use portal_token::TokenError;
use portal_token::interpret_response;

fn ok_outcome(body: &str) -> HttpOutcome {
    HttpOutcome::Received { status: 200, body: Some(body.to_owned()) }
}

#[test]
fn ok_response_yields_the_token() {
    let r = interpret_response(ok_outcome("{\"access_token\":\"abc123\",\"expires_in\":3600}"));
    let token = r.expect("a 200 answer with the expected body must yield a token");
    assert_eq!(token.to_token(), "abc123");
}

#[test]
fn non_ok_status_is_a_server_error_and_its_body_is_not_parsed() {
    let r = interpret_response(HttpOutcome::Received {
        status: 401,
        body: Some("{\"access_token\":\"abc123\",\"expires_in\":3600}".to_owned()),
    });
    assert!(matches!(r, Err(TokenError::Server(401))));

    let r = interpret_response(HttpOutcome::Received { status: 500, body: None });
    assert!(matches!(r, Err(TokenError::Server(500))));
}

#[test]
fn invalid_json_is_a_deserialization_error_carrying_the_raw_text() {
    let r = interpret_response(ok_outcome("not json at all"));
    match r {
        Err(TokenError::Deserialization(raw)) => assert_eq!(raw, "not json at all"),
        _ => panic!("an unrecognized body must be a deserialization error"),
    }
}

#[test]
fn missing_access_token_is_a_deserialization_error() {
    let r = interpret_response(ok_outcome("{\"expires_in\":3600}"));
    assert!(matches!(r, Err(TokenError::Deserialization(_))));
}

#[test]
fn transport_failure_is_a_transport_error() {
    let r = interpret_response(HttpOutcome::TransportFailed);
    assert!(matches!(r, Err(TokenError::Transport)));
}

#[test]
fn unreadable_ok_body_is_a_text_read_error() {
    let r = interpret_response(HttpOutcome::Received { status: 200, body: None });
    assert!(matches!(r, Err(TokenError::TextRead)));
}

#[test]
fn interpretation_is_stateless_across_calls() {
    let body = "{\"access_token\":\"abc123\",\"expires_in\":3600}";
    let first = interpret_response(ok_outcome(body));
    let second = interpret_response(ok_outcome(body));
    assert_eq!(first.expect("first call").to_token(), "abc123");
    assert_eq!(second.expect("second call").to_token(), "abc123");
}

#[test]
fn token_is_exposed_verbatim() {
    let r = interpret_response(ok_outcome(
        "{\"access_token\":\"  A.b-C_1 2 \",\"expires_in\":1}",
    ));
    assert_eq!(r.expect("token").to_token(), "  A.b-C_1 2 ");
}
