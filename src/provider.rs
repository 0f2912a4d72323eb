//! Requests to the identity provider: the authorization URL the user opens, the token
//! endpoint and its forms, the signing-key URL, and how a token exchange ends.

use vstd::prelude::*;
use crate::config::CognitoConfig;
use crate::schemas::TokenResponse;

verus! {

/// `s` without the `/` characters at its end.
pub open spec fn without_trailing_slashes(s: Seq<char>) -> Seq<char>
    decreases s.len(),
{
    if s.len() > 0 && s.last() == '/' {
        without_trailing_slashes(s.drop_last())
    } else {
        s
    }
}

/// Returns `s` without the `/` characters at its end.
pub fn trim_trailing_slashes(s: &str) -> (r: String)
    ensures
        r@ == without_trailing_slashes(s@),
{
    let n = s.unicode_len();
    let mut j = n;
    assert(s@.take(n as int) =~= s@);
    while j > 0
        invariant
            j <= n,
            n == s@.len(),
            without_trailing_slashes(s@) == without_trailing_slashes(s@.take(j as int)),
        ensures
            j <= n,
            without_trailing_slashes(s@) == without_trailing_slashes(s@.take(j as int)),
            j == 0 || s@[j - 1] != '/',
        decreases j,
    {
        if s.get_char(j - 1) != '/' {
            break;
        }
        assert(s@.take(j as int).drop_last() =~= s@.take(j - 1));
        j = j - 1;
    }
    assert(s@.take(j as int).len() == 0 || s@.take(j as int).last() != '/');
    String::from_str(s.substring_char(0, j))
}

/// The name for what percent-encoding makes of a string.
pub uninterp spec fn url_encoded(s: Seq<char>) -> Seq<char>;

/// Relies on `urlencoding::encode`: every byte but ASCII letters, digits and `-_.~` is
/// percent-encoded; the result depends on the input alone.
#[verifier::external_body]
fn url_encode(s: &str) -> (r: String)
    ensures
        r@ == url_encoded(s@),
{
    urlencoding::encode(s).into_owned()
}

/// The URL at which the user signs in to complete the login of `state`.
pub open spec fn authorize_url_of(
    domain: Seq<char>,
    client_id: Seq<char>,
    encoded_redirect_uri: Seq<char>,
    state: Seq<char>,
) -> Seq<char> {
    without_trailing_slashes(domain) + "/oauth2/authorize?response_type=code&client_id="@
        + client_id + "&redirect_uri="@ + encoded_redirect_uri
        + "&scope=openid+email+profile&state="@ + state
}

/// Builds the sign-in URL from the provider's domain, the client id, the redirect URI
/// already percent-encoded, and the state token.
pub fn authorize_url(
    domain: &str,
    client_id: &str,
    encoded_redirect_uri: &str,
    state: &str,
) -> (r: String)
    ensures
        r@ == authorize_url_of(domain@, client_id@, encoded_redirect_uri@, state@),
{
    trim_trailing_slashes(domain).concat(
        "/oauth2/authorize?response_type=code&client_id=",
    ).concat(client_id).concat("&redirect_uri=").concat(encoded_redirect_uri).concat(
        "&scope=openid+email+profile&state=",
    ).concat(state)
}

/// Builds the sign-in URL for `state` from the provider's configuration.
pub fn build_auth_url(cognito: &CognitoConfig, state: &str) -> (r: String)
    ensures
        r@ == authorize_url_of(
            cognito.domain@,
            cognito.client_id@,
            url_encoded(cognito.redirect_uri@),
            state@,
        ),
{
    let encoded = url_encode(cognito.redirect_uri.as_str());
    authorize_url(cognito.domain.as_str(), cognito.client_id.as_str(), encoded.as_str(), state)
}

/// The provider's token endpoint.
pub open spec fn token_endpoint_of(domain: Seq<char>) -> Seq<char> {
    without_trailing_slashes(domain) + "/oauth2/token"@
}

/// Returns the provider's token endpoint.
pub fn token_endpoint(cognito: &CognitoConfig) -> (r: String)
    ensures
        r@ == token_endpoint_of(cognito.domain@),
{
    trim_trailing_slashes(cognito.domain.as_str()).concat("/oauth2/token")
}

/// The URL of the user pool's signing keys.
pub open spec fn jwks_url_of(region: Seq<char>, user_pool_id: Seq<char>) -> Seq<char> {
    "https://cognito-idp."@ + region + ".amazonaws.com/"@ + user_pool_id
        + "/.well-known/jwks.json"@
}

/// Returns the URL of the user pool's signing keys.
pub fn jwks_url(cognito: &CognitoConfig) -> (r: String)
    ensures
        r@ == jwks_url_of(cognito.region@, cognito.user_pool_id@),
{
    String::from_str("https://cognito-idp.").concat(cognito.region.as_str()).concat(
        ".amazonaws.com/",
    ).concat(cognito.user_pool_id.as_str()).concat("/.well-known/jwks.json")
}

/// The fields of a form, as character sequences.
pub open spec fn form_view(form: Seq<(String, String)>) -> Seq<(Seq<char>, Seq<char>)> {
    form.map_values(|p: (String, String)| (p.0@, p.1@))
}

fn field(name: &str, value: &str) -> (r: (String, String))
    ensures
        r.0@ == name@,
        r.1@ == value@,
{
    (String::from_str(name), String::from_str(value))
}

/// The form that exchanges an authorization code for tokens. The redirect URI is the one
/// the authorization URL carried.
pub fn code_exchange_form(code: &str, cognito: &CognitoConfig) -> (r: Vec<(String, String)>)
    ensures
        form_view(r@) == seq![
            ("grant_type"@, "authorization_code"@),
            ("client_id"@, cognito.client_id@),
            ("code"@, code@),
            ("redirect_uri"@, cognito.redirect_uri@),
        ],
{
    let mut form: Vec<(String, String)> = Vec::new();
    form.push(field("grant_type", "authorization_code"));
    form.push(field("client_id", cognito.client_id.as_str()));
    form.push(field("code", code));
    form.push(field("redirect_uri", cognito.redirect_uri.as_str()));
    assert(form_view(form@) =~= seq![
        ("grant_type"@, "authorization_code"@),
        ("client_id"@, cognito.client_id@),
        ("code"@, code@),
        ("redirect_uri"@, cognito.redirect_uri@),
    ]);
    form
}

/// The form that exchanges a refresh token for new tokens.
pub fn refresh_exchange_form(refresh_token: &str, cognito: &CognitoConfig) -> (r: Vec<
    (String, String),
>)
    ensures
        form_view(r@) == seq![
            ("grant_type"@, "refresh_token"@),
            ("client_id"@, cognito.client_id@),
            ("refresh_token"@, refresh_token@),
        ],
{
    let mut form: Vec<(String, String)> = Vec::new();
    form.push(field("grant_type", "refresh_token"));
    form.push(field("client_id", cognito.client_id.as_str()));
    form.push(field("refresh_token", refresh_token));
    assert(form_view(form@) =~= seq![
        ("grant_type"@, "refresh_token"@),
        ("client_id"@, cognito.client_id@),
        ("refresh_token"@, refresh_token@),
    ]);
    form
}

/// Why a token exchange failed.
#[derive(Debug, Clone, Copy, PartialEq, Eq)]
pub enum ExchangeError {
    /// The endpoint could not be reached.
    Transport,
    /// The endpoint answered with a status outside 2xx.
    Rejected,
    /// The endpoint answered 2xx with a body that is not a token response.
    Malformed,
}

/// Whether an HTTP status is a success (2xx).
pub open spec fn is_success_status(status: u16) -> bool {
    200 <= status && status <= 299
}

/// How a token exchange ends, from the HTTP status of the answer (`None` when the
/// endpoint could not be reached) and its parsed body (`None` when it did not parse).
pub fn exchange_outcome(status: Option<u16>, body: Option<TokenResponse>) -> (r: Result<
    TokenResponse,
    ExchangeError,
>)
    ensures
        status is None ==> r == Err::<TokenResponse, ExchangeError>(ExchangeError::Transport),
        status matches Some(s) && !is_success_status(s) ==> r == Err::<
            TokenResponse,
            ExchangeError,
        >(ExchangeError::Rejected),
        status matches Some(s) && is_success_status(s) ==> r == match body {
            Some(t) => Ok::<TokenResponse, ExchangeError>(t),
            None => Err(ExchangeError::Malformed),
        },
{
    match status {
        None => Err(ExchangeError::Transport),
        Some(s) => {
            if s < 200 || s > 299 {
                Err(ExchangeError::Rejected)
            } else {
                match body {
                    Some(t) => Ok(t),
                    None => Err(ExchangeError::Malformed),
                }
            }
        },
    }
}

} // verus!
