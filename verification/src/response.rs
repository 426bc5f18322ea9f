//! Interpretation of the token endpoint's answer.
//!
//! The transport hands in an `HttpOutcome`: either the request never got an
//! answer, or a status code with the body text where it could be read. The
//! interpretation is a single pure decision: only a 200 answer whose body has
//! the expected shape yields a token; every other outcome yields one of the
//! discriminated errors, so a caller can always tell a token from diagnostic
//! text.

use vstd::prelude::*;
use crate::json::spec_parse_body;
use crate::json::parse_token_body;

verus! {

/// A successful answer of the token endpoint.
pub struct AccessToken {
    access_token: String,
    expires_in: i64,
}

/// The mathematical content of an `AccessToken`.
pub struct AccessTokenV {
    pub access_token: Seq<char>,
    pub expires_in: int,
}

impl View for AccessToken {
    type V = AccessTokenV;

    closed spec fn view(&self) -> AccessTokenV {
        AccessTokenV { access_token: self.access_token@, expires_in: self.expires_in as int }
    }
}

impl AccessToken {
    /// The bearer token, exactly as the endpoint sent it.
    pub fn to_token(&self) -> (token: String)
        ensures
            token@ == self@.access_token,
    {
        self.access_token.clone()
    }
}

/// Why no token came back.
#[derive(Debug)]
pub enum TokenError {
    /// The request could not be sent, or no answer arrived.
    Transport,
    /// The endpoint answered with this status instead of 200; its body was
    /// not consulted.
    Server(u16),
    /// The endpoint answered 200, but the body did not have the expected
    /// shape; the raw text is kept as a diagnostic.
    Deserialization(String),
    /// The endpoint answered 200, but the body text could not be read.
    TextRead,
}

/// The mathematical content of a `TokenError`.
pub enum TokenErrorV {
    Transport,
    Server(u16),
    Deserialization(Seq<char>),
    TextRead,
}

impl View for TokenError {
    type V = TokenErrorV;

    closed spec fn view(&self) -> TokenErrorV {
        match self {
            TokenError::Transport => TokenErrorV::Transport,
            TokenError::Server(status) => TokenErrorV::Server(*status),
            TokenError::Deserialization(text) => TokenErrorV::Deserialization(text@),
            TokenError::TextRead => TokenErrorV::TextRead,
        }
    }
}

/// What came back over the wire, as plain values.
pub enum HttpOutcome {
    /// The request could not be sent, or no answer arrived.
    TransportFailed,
    /// An answer arrived with this status; `body` holds its text, or `None`
    /// where reading the text failed.
    Received { status: u16, body: Option<String> },
}

/// The mathematical content of an `HttpOutcome`.
pub enum HttpOutcomeV {
    TransportFailed,
    Received { status: u16, body: Option<Seq<char>> },
}

impl View for HttpOutcome {
    type V = HttpOutcomeV;

    closed spec fn view(&self) -> HttpOutcomeV {
        match self {
            HttpOutcome::TransportFailed => HttpOutcomeV::TransportFailed,
            HttpOutcome::Received { status, body } => HttpOutcomeV::Received {
                status: *status,
                body: match body {
                    Some(b) => Some(b@),
                    None => None,
                },
            },
        }
    }
}

/// The token or error each outcome resolves to. Only a 200 answer whose body
/// parses yields a token, and the token and validity window are taken from
/// the body verbatim.
pub open spec fn spec_token_result(o: HttpOutcomeV) -> Result<AccessTokenV, TokenErrorV> {
    match o {
        HttpOutcomeV::TransportFailed => Err(TokenErrorV::Transport),
        HttpOutcomeV::Received { status, body } => {
            if status != 200 {
                Err(TokenErrorV::Server(status))
            } else {
                match body {
                    None => Err(TokenErrorV::TextRead),
                    Some(b) => match spec_parse_body(b) {
                        Some(p) => Ok(AccessTokenV { access_token: p.0, expires_in: p.1 }),
                        None => Err(TokenErrorV::Deserialization(b)),
                    },
                }
            }
        },
    }
}

/// What an interpretation result holds.
pub open spec fn token_result_view(r: Result<AccessToken, TokenError>) -> Result<
    AccessTokenV,
    TokenErrorV,
> {
    match r {
        Ok(t) => Ok(t@),
        Err(e) => Err(e@),
    }
}

/// Resolve one outcome of the token request, exactly as `spec_token_result`
/// states it.
pub fn interpret_response(outcome: HttpOutcome) -> (r: Result<AccessToken, TokenError>)
    ensures
        token_result_view(r) == spec_token_result(outcome@),
{
    match outcome {
        HttpOutcome::TransportFailed => Err(TokenError::Transport),
        HttpOutcome::Received { status, body } => {
            if status != 200 {
                Err(TokenError::Server(status))
            } else {
                match body {
                    None => Err(TokenError::TextRead),
                    Some(b) => match parse_token_body(b.as_str()) {
                        Some(p) => Ok(AccessToken { access_token: p.0, expires_in: p.1 }),
                        None => Err(TokenError::Deserialization(b)),
                    },
                }
            }
        },
    }
}

/// An answer whose status is not 200 resolves to a server error, whatever
/// its body holds: the body is not consulted.
pub proof fn lemma_non_ok_status_is_server_error(status: u16, body: Option<Seq<char>>)
    requires
        status != 200,
    ensures
        spec_token_result(HttpOutcomeV::Received { status, body }) == Err::<
            AccessTokenV,
            TokenErrorV,
        >(TokenErrorV::Server(status)),
{
}

/// Interpretation keeps no state: two calls over equal outcomes resolve to
/// equal results, so repeating a request against a stable endpoint yields
/// independent, individually valid tokens.
pub proof fn lemma_interpretation_deterministic(
    o1: HttpOutcome,
    o2: HttpOutcome,
    r1: Result<AccessToken, TokenError>,
    r2: Result<AccessToken, TokenError>,
)
    requires
        o1@ == o2@,
        token_result_view(r1) == spec_token_result(o1@),
        token_result_view(r2) == spec_token_result(o2@),
    ensures
        token_result_view(r1) == token_result_view(r2),
{
}

/// A successful interpretation exposes the body's `access_token` and
/// `expires_in` verbatim: nothing is transformed, trimmed or escaped on the
/// way from the parsed body to the returned token.
pub proof fn lemma_success_token_verbatim(b: Seq<char>)
    requires
        spec_parse_body(b) is Some,
    ensures
        spec_token_result(HttpOutcomeV::Received { status: 200, body: Some(b) }) == Ok::<
            AccessTokenV,
            TokenErrorV,
        >(
            AccessTokenV {
                access_token: spec_parse_body(b)->Some_0.0,
                expires_in: spec_parse_body(b)->Some_0.1,
            },
        ),
{
}

} // verus!
