//! The token client itself: credentials and the request payload it derives.

use vstd::prelude::*;
use vstd::string::*;

verus! {

/// A client of the token endpoint, holding the credentials of the
/// client-credentials grant. Credentials are immutable after construction.
pub struct Portal {
    client_id: String,
    client_secret: String,
}

/// The URL-encoded form body for the client-credentials grant:
/// `client_id=<id>&client_secret=<secret>&grant_type=client_credentials`.
pub open spec fn payload_of(id: Seq<char>, secret: Seq<char>) -> Seq<char> {
    "client_id="@ + id + "&client_secret="@ + secret + "&grant_type=client_credentials"@
}

/// No character of `s` is a form separator: neither the `&` that joins
/// pairs nor the `=` that joins a key to its value.
pub open spec fn separator_free(s: Seq<char>) -> bool {
    forall|i: int| 0 <= i < s.len() ==> s[i] != '&' && s[i] != '='
}

/// One `key=value` pair of a URL-encoded form: the key, one `=`, the value,
/// with no separator inside the key or the value.
pub open spec fn is_form_pair(p: Seq<char>, key: Seq<char>, value: Seq<char>) -> bool {
    &&& p == key + "="@ + value
    &&& separator_free(key)
    &&& separator_free(value)
}

/// For credentials free of separators, the payload is exactly three
/// `key=value` pairs joined by `&`, with `grant_type=client_credentials`
/// always last.
pub proof fn lemma_payload_three_pairs(id: Seq<char>, secret: Seq<char>)
    requires
        id.len() > 0,
        secret.len() > 0,
        separator_free(id),
        separator_free(secret),
    ensures
        payload_of(id, secret) == ("client_id="@ + id) + "&"@ + ("client_secret="@ + secret)
            + "&"@ + "grant_type=client_credentials"@,
        is_form_pair("client_id="@ + id, "client_id"@, id),
        is_form_pair("client_secret="@ + secret, "client_secret"@, secret),
        is_form_pair("grant_type=client_credentials"@, "grant_type"@, "client_credentials"@),
{
    reveal_strlit("client_id=");
    reveal_strlit("client_id");
    reveal_strlit("client_secret=");
    reveal_strlit("client_secret");
    reveal_strlit("&client_secret=");
    reveal_strlit("grant_type=client_credentials");
    reveal_strlit("&grant_type=client_credentials");
    reveal_strlit("grant_type");
    reveal_strlit("client_credentials");
    reveal_strlit("&");
    reveal_strlit("=");
    assert(payload_of(id, secret) =~= ("client_id="@ + id) + "&"@ + ("client_secret="@
        + secret) + "&"@ + "grant_type=client_credentials"@);
    assert("client_id="@ =~= "client_id"@ + "="@);
    assert("client_secret="@ =~= "client_secret"@ + "="@);
    assert("grant_type=client_credentials"@ =~= "grant_type"@ + "="@ + "client_credentials"@);
    assert(separator_free("client_id"@));
    assert(separator_free("client_secret"@));
    assert(separator_free("grant_type"@));
    assert(separator_free("client_credentials"@));
    assert(("client_id="@ + id) =~= "client_id"@ + "="@ + id);
    assert(("client_secret="@ + secret) =~= "client_secret"@ + "="@ + secret);
}

/// Payload construction is deterministic: clients that hold equal
/// credentials derive equal payloads, on any two calls.
pub proof fn lemma_payload_deterministic(a: &Portal, b: &Portal, pa: Seq<char>, pb: Seq<char>)
    requires
        a.spec_client_id() == b.spec_client_id(),
        a.spec_client_secret() == b.spec_client_secret(),
        pa == payload_of(a.spec_client_id(), a.spec_client_secret()),
        pb == payload_of(b.spec_client_id(), b.spec_client_secret()),
    ensures
        pa == pb,
{
}

impl Portal {
    /// The stored client id.
    pub closed spec fn spec_client_id(&self) -> Seq<char> {
        self.client_id@
    }

    /// The stored client secret.
    pub closed spec fn spec_client_secret(&self) -> Seq<char> {
        self.client_secret@
    }

    /// No validation happens here: empty credentials are accepted, and any
    /// failure is deferred to request time.
    pub fn new(client_id: String, client_secret: String) -> (portal: Self)
        ensures
            portal.spec_client_id() == client_id@,
            portal.spec_client_secret() == client_secret@,
    {
        Portal { client_id, client_secret }
    }

    /// The form body sent to the token endpoint, exactly as `payload_of`
    /// states it: the three fixed keys, in a fixed order, with
    /// `grant_type=client_credentials` constant and last.
    pub fn generate_payload(&self) -> (payload: String)
        ensures
            payload@ == payload_of(self.spec_client_id(), self.spec_client_secret()),
    {
        let mut payload: String = String::from_str("client_id=");
        payload.append(self.client_id.as_str());
        payload.append("&client_secret=");
        payload.append(self.client_secret.as_str());
        payload.append("&grant_type=client_credentials");
        payload
    }

    /// The same payload as key/value pairs, for callers that send the form
    /// field by field: exactly the three fixed keys, `grant_type` constant.
    pub fn generate_payload_params(&self) -> (params: Vec<(String, String)>)
        ensures
            params@.len() == 3,
            params@[0].0@ == "client_id"@,
            params@[0].1@ == self.spec_client_id(),
            params@[1].0@ == "client_secret"@,
            params@[1].1@ == self.spec_client_secret(),
            params@[2].0@ == "grant_type"@,
            params@[2].1@ == "client_credentials"@,
    {
        let mut params: Vec<(String, String)> = Vec::new();
        params.push((String::from_str("client_id"), self.client_id.clone()));
        params.push((String::from_str("client_secret"), self.client_secret.clone()));
        params.push((String::from_str("grant_type"), String::from_str("client_credentials")));
        params
    }

    /// The fixed headers of every token request.
    pub fn default_headers() -> (headers: Vec<(String, String)>)
        ensures
            headers@.len() == 3,
            headers@[0].0@ == "content-type"@,
            headers@[0].1@ == "application/x-www-form-urlencoded"@,
            headers@[1].0@ == "accept"@,
            headers@[1].1@ == "application/json"@,
            headers@[2].0@ == "cache-control"@,
            headers@[2].1@ == "no-cache"@,
    {
        let mut headers: Vec<(String, String)> = Vec::new();
        headers.push((String::from_str("content-type"), String::from_str("application/x-www-form-urlencoded")));
        headers.push((String::from_str("accept"), String::from_str("application/json")));
        headers.push((String::from_str("cache-control"), String::from_str("no-cache")));
        headers
    }

    /// The default token endpoint. Callers that make the endpoint
    /// configurable should start from this value.
    pub fn token_endpoint() -> (url: &'static str)
        ensures
            url@ == "https://www.arcgis.com/sharing/rest/oauth2/token"@,
    {
        "https://www.arcgis.com/sharing/rest/oauth2/token"
    }
}

} // verus!
