//! A minimal OAuth2 client-credentials token client.
//!
//! A `Portal` owns a client id and client secret, builds the form payload for
//! the client-credentials grant, and interprets the token endpoint's HTTP
//! response as either an access token or a discriminated error.

pub mod json;
pub mod portal;
pub mod response;

pub use json::parse_token_body;
pub use portal::Portal;
pub use response::AccessToken;
pub use response::HttpOutcome;
pub use response::TokenError;
pub use response::interpret_response;
