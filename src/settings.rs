use crate::error::ClientError;
use oauth2::url::ParseError;
use oauth2::{AuthUrl, TokenUrl};
use vstd::prelude::*;

verus! {

#[verifier::external_type_specification]
#[verifier::external_body]
pub struct ExTokenUrl(TokenUrl);

#[verifier::external_type_specification]
#[verifier::external_body]
pub struct ExAuthUrl(AuthUrl);

#[verifier::external_type_specification]
#[verifier::external_body]
pub struct ExParseError(ParseError);

/// What `TokenUrl::new` makes of the text: `None` when it does not parse as a URL.
pub uninterp spec fn token_url_of(s: Seq<char>) -> Option<TokenUrl>;

/// What `AuthUrl::new` makes of the text: `None` when it does not parse as a URL.
pub uninterp spec fn auth_url_of(s: Seq<char>) -> Option<AuthUrl>;

/// Relies on oauth2's `TokenUrl::new`: it keeps the text and what `Url::parse`
/// makes of it, and fails exactly when `Url::parse` rejects the text; the result
/// depends on the text alone.
#[verifier::external_body]
fn new_token_url(s: String) -> (r: Result<TokenUrl, ParseError>)
    ensures
        r is Ok <==> token_url_of(s@) is Some,
        r matches Ok(u) ==> token_url_of(s@) == Some(u),
{
    TokenUrl::new(s)
}

/// Relies on oauth2's `AuthUrl::new`: it keeps the text and what `Url::parse`
/// makes of it, and fails exactly when `Url::parse` rejects the text; the result
/// depends on the text alone.
#[verifier::external_body]
fn new_auth_url(s: String) -> (r: Result<AuthUrl, ParseError>)
    ensures
        r is Ok <==> auth_url_of(s@) is Some,
        r matches Ok(u) ==> auth_url_of(s@) == Some(u),
{
    AuthUrl::new(s)
}

/// The authorization URL handed to the OAuth2 client. The client-credentials
/// grant never visits it.
pub open spec fn unused_auth_url() -> Seq<char> {
    seq!['h', 't', 't', 'p', ':', '/', '/', 'u', 'n', 'u', 's', 'e', 'd']
}

/// How to reach the authorization server: immutable once a client is built.
#[derive(Debug, Clone)]
pub struct AuthorizedClientSettings {
    pub client_id: String,
    pub client_secret: String,
    pub token_url: String,
    pub scopes: Vec<String>,
}

pub type Settings = AuthorizedClientSettings;

impl AuthorizedClientSettings {
    /// The token endpoint, or `ConfigError` when `token_url` is not a URL.
    pub fn token_endpoint(&self) -> (r: Result<TokenUrl, ClientError>)
        ensures
            r is Ok <==> token_url_of(self.token_url@) is Some,
            r matches Ok(u) ==> token_url_of(self.token_url@) == Some(u),
            r is Err ==> r matches Err(ClientError::ConfigError),
    {
        let text = self.token_url.clone();
        match new_token_url(text) {
            Ok(u) => Ok(u),
            Err(_) => Err(ClientError::ConfigError),
        }
    }

    /// The authorization endpoint that the OAuth2 client requires but the
    /// client-credentials grant does not use.
    pub fn auth_endpoint(&self) -> (r: Result<AuthUrl, ClientError>)
        ensures
            r is Ok <==> auth_url_of(unused_auth_url()) is Some,
            r matches Ok(u) ==> auth_url_of(unused_auth_url()) == Some(u),
            r is Err ==> r matches Err(ClientError::ConfigError),
    {
        let text = String::from_str("http://unused");
        proof {
            reveal_strlit("http://unused");
            assert(text@ =~= unused_auth_url());
        }
        match new_auth_url(text) {
            Ok(u) => Ok(u),
            Err(_) => Err(ClientError::ConfigError),
        }
    }
}

} // verus!
