use portal_token::parse_token_body;

#[test]
fn plain_body_parses() {
    let r = parse_token_body("{\"access_token\":\"abc123\",\"expires_in\":3600}");
    assert_eq!(r, Some(("abc123".to_owned(), 3600)));
}

#[test]
fn whitespace_between_tokens_is_allowed() {
    let r = parse_token_body(
        " \t{ \"access_token\" : \"abc\" ,\n \"expires_in\" : 7200 }\r\n",
    );
    assert_eq!(r, Some(("abc".to_owned(), 7200)));
}

#[test]
fn member_order_does_not_matter() {
    let r = parse_token_body("{\"expires_in\":60,\"access_token\":\"t\"}");
    assert_eq!(r, Some(("t".to_owned(), 60)));
}

#[test]
fn unknown_members_are_ignored() {
    let r = parse_token_body(
        "{\"token_type\":\"bearer\",\"access_token\":\"t\",\"ssl\":\"true\",\"expires_in\":1209600}",
    );
    assert_eq!(r, Some(("t".to_owned(), 1209600)));
}

#[test]
fn negative_and_zero_expiry_parse() {
    assert_eq!(
        parse_token_body("{\"access_token\":\"t\",\"expires_in\":-5}"),
        Some(("t".to_owned(), -5))
    );
    assert_eq!(
        parse_token_body("{\"access_token\":\"t\",\"expires_in\":0}"),
        Some(("t".to_owned(), 0))
    );
}

#[test]
fn empty_token_string_parses() {
    assert_eq!(
        parse_token_body("{\"access_token\":\"\",\"expires_in\":1}"),
        Some((String::new(), 1))
    );
}

#[test]
fn largest_accepted_expiry_parses() {
    assert_eq!(
        parse_token_body("{\"access_token\":\"t\",\"expires_in\":999999999999999999}"),
        Some(("t".to_owned(), 999_999_999_999_999_999))
    );
}

#[test]
fn nineteen_digit_expiry_is_rejected() {
    assert_eq!(
        parse_token_body("{\"access_token\":\"t\",\"expires_in\":1000000000000000000}"),
        None
    );
}

#[test]
fn malformed_bodies_are_rejected() {
    assert_eq!(parse_token_body(""), None);
    assert_eq!(parse_token_body("{}"), None);
    assert_eq!(parse_token_body("null"), None);
    assert_eq!(parse_token_body("\"access_token\""), None);
    assert_eq!(parse_token_body("{\"access_token\":\"t\"}"), None);
    assert_eq!(parse_token_body("{\"expires_in\":3600}"), None);
    assert_eq!(parse_token_body("{\"access_token\":\"t\",\"expires_in\":3600"), None);
    assert_eq!(parse_token_body("{\"access_token\":\"t\",\"expires_in\":3600}}"), None);
    assert_eq!(parse_token_body("{\"access_token\":\"t\",\"expires_in\":3600} x"), None);
    assert_eq!(parse_token_body("{\"access_token\":\"t\",,\"expires_in\":1}"), None);
    assert_eq!(parse_token_body("{\"access_token\":\"t\",\"expires_in\":1,}"), None);
}

#[test]
fn wrongly_typed_fields_are_rejected() {
    assert_eq!(parse_token_body("{\"access_token\":5,\"expires_in\":3600}"), None);
    assert_eq!(
        parse_token_body("{\"access_token\":\"t\",\"expires_in\":\"3600\"}"),
        None
    );
}

#[test]
fn duplicate_fields_are_rejected() {
    assert_eq!(
        parse_token_body("{\"access_token\":\"a\",\"access_token\":\"b\",\"expires_in\":1}"),
        None
    );
    assert_eq!(
        parse_token_body("{\"access_token\":\"a\",\"expires_in\":1,\"expires_in\":2}"),
        None
    );
}

#[test]
fn numeric_edge_shapes_are_rejected() {
    assert_eq!(parse_token_body("{\"access_token\":\"t\",\"expires_in\":01}"), None);
    assert_eq!(parse_token_body("{\"access_token\":\"t\",\"expires_in\":-}"), None);
    assert_eq!(parse_token_body("{\"access_token\":\"t\",\"expires_in\":3.5}"), None);
}

#[test]
fn escape_sequences_are_not_accepted() {
    assert_eq!(
        parse_token_body("{\"access_token\":\"a\\nb\",\"expires_in\":1}"),
        None
    );
}
