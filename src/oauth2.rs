//! The OAuth2 exchanges with a provider, as values: the authorization
//! redirect, the form of the token requests, and the token response.
use vstd::prelude::*;
use crate::config::OAuth2Config;

verus! {

/// What a provider's token endpoint answers.
#[derive(Clone, Debug)]
pub struct OAuth2Response {
    pub token_type: String,
    pub access_token: String,
    /// Lifetime of the access token in seconds, where the provider gives it.
    pub expires_in: Option<u64>,
    pub refresh_token: Option<String>,
    pub scope: String,
}


/// The `application/x-www-form-urlencoded` form of the UTF-8 bytes of `s`.
pub uninterp spec fn form_urlencoded_of(s: Seq<char>) -> Seq<char>;

/// Relies on `url::form_urlencoded::byte_serialize`: the encoding of a
/// string's bytes, which depends on those bytes alone.
#[verifier::external_body]
fn form_urlencode(s: &str) -> (r: String)
    ensures
        r@ == form_urlencoded_of(s@),
{
    url::form_urlencoded::byte_serialize(s.as_bytes()).collect()
}

/// Where a provider's authorization page is reached, given the redirect URI
/// already encoded.
pub open spec fn authorize_url_of(config: OAuth2Config, encoded_redirect_uri: Seq<char>) -> Seq<
    char,
> {
    config.authorize_url@ + "?client_id="@ + config.client_id@ + "&response_type=code&redirect_uri="@
        + encoded_redirect_uri + "&scope="@ + config.scope@
}

/// The authorization URL of `config` with `encoded_redirect_uri` as the
/// encoded redirect URI.
pub fn authorize_url_with(config: &OAuth2Config, encoded_redirect_uri: &str) -> (r: String)
    ensures
        r@ == authorize_url_of(*config, encoded_redirect_uri@),
{
    let mut r = config.authorize_url.clone();
    r.append("?client_id=");
    r.append(config.client_id.as_str());
    r.append("&response_type=code&redirect_uri=");
    r.append(encoded_redirect_uri);
    r.append("&scope=");
    r.append(config.scope.as_str());
    r
}

/// The URL that a login through `config` is redirected to.
pub fn redirect_to_authorize(config: &OAuth2Config) -> (r: String)
    ensures
        r@ == authorize_url_of(*config, form_urlencoded_of(config.redirect_uri@)),
{
    let encoded = form_urlencode(config.redirect_uri.as_str());
    authorize_url_with(config, encoded.as_str())
}

/// The fields of a form, as character sequences.
pub open spec fn form_view(f: Seq<(String, String)>) -> Seq<(Seq<char>, Seq<char>)> {
    f.map_values(|p: (String, String)| (p.0@, p.1@))
}

fn field(name: &str, value: &str) -> (r: (String, String))
    ensures
        r.0@ == name@,
        r.1@ == value@,
{
    (String::from_str(name), String::from_str(value))
}

/// The form of a token request: the client's credentials, the grant type and
/// its credential, and the redirect URI.
pub open spec fn token_form(
    config: OAuth2Config,
    grant_type: Seq<char>,
    credential_name: Seq<char>,
    credential: Seq<char>,
) -> Seq<(Seq<char>, Seq<char>)> {
    seq![
        ("client_id"@, config.client_id@),
        ("client_secret"@, config.secret@),
        ("grant_type"@, grant_type),
        (credential_name, credential),
        ("redirect_uri"@, config.redirect_uri@),
    ]
}

fn token_request_form(
    config: &OAuth2Config,
    grant_type: &str,
    credential_name: &str,
    credential: &str,
) -> (r: Vec<(String, String)>)
    ensures
        form_view(r@) == token_form(*config, grant_type@, credential_name@, credential@),
{
    let mut r: Vec<(String, String)> = Vec::new();
    r.push(field("client_id", config.client_id.as_str()));
    r.push(field("client_secret", config.secret.as_str()));
    r.push(field("grant_type", grant_type));
    r.push(field(credential_name, credential));
    r.push(field("redirect_uri", config.redirect_uri.as_str()));
    assert(form_view(r@) =~= token_form(*config, grant_type@, credential_name@, credential@));
    r
}

/// The form that exchanges the authorization code `code` for tokens.
pub fn exchange_token_form(code: &str, config: &OAuth2Config) -> (r: Vec<(String, String)>)
    ensures
        form_view(r@) == token_form(*config, "authorization_code"@, "code"@, code@),
{
    token_request_form(config, "authorization_code", "code", code)
}

/// The form that trades the refresh token `refresh_token` for new tokens.
pub fn refresh_token_form(refresh_token: &str, config: &OAuth2Config) -> (r: Vec<(String, String)>)
    ensures
        form_view(r@) == token_form(*config, "refresh_token"@, "refresh_token"@, refresh_token@),
{
    token_request_form(config, "refresh_token", "refresh_token", refresh_token)
}

} // verus!
