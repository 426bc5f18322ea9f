use portal_token::Portal;

#[test]
fn generate_token() {
    let portal = Portal::new("123".to_owned(), "xyz".to_owned());

    let expected_payload: &str = "client_id=123&client_secret=xyz&grant_type=client_credentials";
    let payload = portal.generate_payload();
    assert_eq!(expected_payload, payload);
}

#[test]
fn payload_has_three_fixed_pairs_with_grant_type_last() {
    let portal = Portal::new("my-app".to_owned(), "s3cr3t".to_owned());
    let payload = portal.generate_payload();
    let pairs: Vec<&str> = payload.split('&').collect();
    assert_eq!(pairs.len(), 3);
    assert_eq!(pairs[0], "client_id=my-app");
    assert_eq!(pairs[1], "client_secret=s3cr3t");
    assert_eq!(pairs[2], "grant_type=client_credentials");
}

#[test]
fn payload_construction_is_deterministic() {
    let a = Portal::new("123".to_owned(), "xyz".to_owned());
    let b = Portal::new("123".to_owned(), "xyz".to_owned());
    assert_eq!(a.generate_payload(), b.generate_payload());
    assert_eq!(a.generate_payload(), a.generate_payload());
}

#[test]
fn payload_accepts_empty_credentials() {
    let portal = Portal::new(String::new(), String::new());
    assert_eq!(
        portal.generate_payload(),
        "client_id=&client_secret=&grant_type=client_credentials"
    );
}

#[test]
fn payload_params_hold_the_three_fixed_keys() {
    let portal = Portal::new("123".to_owned(), "xyz".to_owned());
    let params = portal.generate_payload_params();
    assert_eq!(params.len(), 3);
    assert_eq!(params[0], ("client_id".to_owned(), "123".to_owned()));
    assert_eq!(params[1], ("client_secret".to_owned(), "xyz".to_owned()));
    assert_eq!(params[2], ("grant_type".to_owned(), "client_credentials".to_owned()));
}

#[test]
fn default_headers_are_fixed() {
    let headers = Portal::default_headers();
    assert_eq!(headers.len(), 3);
    assert_eq!(
        headers[0],
        ("content-type".to_owned(), "application/x-www-form-urlencoded".to_owned())
    );
    assert_eq!(headers[1], ("accept".to_owned(), "application/json".to_owned()));
    assert_eq!(headers[2], ("cache-control".to_owned(), "no-cache".to_owned()));
}

#[test]
fn token_endpoint_is_the_fixed_default() {
    assert_eq!(
        Portal::token_endpoint(),
        "https://www.arcgis.com/sharing/rest/oauth2/token"
    );
}
