//! The data of the sign-in flow and the small rules around it.
//!
//! Fetching metadata and keys and checking signatures are the caller's part.

use vstd::prelude::*;
use vstd::string::*;
use std::rc::Rc;
use crate::json::{Json, JsonValue};
use crate::text::{has_prefix, skip_chars, starts_with, str_eq, text_view};

verus! {

/// Seconds for which a fetched key set is used before it is fetched again.
pub const JWKS_MAX_AGE_SECS: u64 = 3600;

/// The claims of an access token.
#[derive(Debug, Clone)]
pub struct Claims {
    pub sub: String,
    pub exp: usize,
    pub roles: Option<Vec<String>>,
    pub email: Option<String>,
}

/// What the identity provider publishes about itself.
#[derive(Debug, Clone)]
pub struct OidcMetadata {
    pub issuer: String,
    pub authorization_endpoint: String,
    pub token_endpoint: String,
    pub jwks_uri: String,
    pub userinfo_endpoint: Option<String>,
    pub id_token_signing_alg_values_supported: Vec<String>,
    pub response_modes_supported: Vec<String>,
    pub scopes_supported: Option<Vec<String>>,
    pub end_session_endpoint: Option<String>,
}

/// The claims of an id token.
#[derive(Debug)]
pub struct IdTokenClaims {
    pub sub: String,
    pub email: Option<String>,
    pub name: Option<String>,
    pub nonce: Option<String>,
    pub aud: String,
    pub iss: String,
    pub exp: usize,
    pub iat: usize,
}

impl IdTokenClaims {
    /// Whether the token carries the nonce that was sent out. A token
    /// without a nonce never does.
    pub fn is_nonce_valid(&self, expected_nonce: &str) -> (valid: bool)
        ensures
            valid == (text_view(self.nonce) == Some(expected_nonce@)),
    {
        match &self.nonce {
            Some(nonce) => str_eq(nonce.as_str(), expected_nonce),
            None => false,
        }
    }
}

/// The form that the identity provider posts back.
#[derive(Debug)]
pub struct OidcCallbackForm {
    pub code: Option<String>,
    pub state: Option<String>,
    pub error: Option<String>,
    pub id_token: Option<String>,
    pub access_token: Option<String>,
    pub refresh_token: Option<String>,
    pub expires_in: Option<String>,
    pub token_type: Option<String>,
    pub scope: Option<String>,
    pub error_description: Option<String>,
}

/// The guard that lets only requests with a valid bearer token through.
#[derive(Debug, Clone)]
pub struct AuthMiddleware {
    pub jwks_url: String,
}

/// The guard, wrapped around one service.
pub struct AuthMiddlewareMiddleware<S> {
    pub service: Rc<S>,
    pub jwks_url: String,
}

impl AuthMiddleware {
    /// A guard that checks tokens against the keys at `jwks_url`.
    pub fn new(jwks_url: String) -> (guard: AuthMiddleware)
        ensures
            guard.jwks_url == jwks_url,
    {
        AuthMiddleware { jwks_url }
    }

    /// The guard around `service`, checking against the same keys.
    pub fn new_transform<S>(&self, service: S) -> (wrapped: AuthMiddlewareMiddleware<S>)
        ensures
            wrapped.jwks_url@ == self.jwks_url@,
            *wrapped.service == service,
    {
        AuthMiddlewareMiddleware { service: Rc::new(service), jwks_url: self.jwks_url.clone() }
    }
}

/// What `str::trim` returns: the text without its leading and trailing
/// white space.
pub uninterp spec fn trimmed(text: Seq<char>) -> Seq<char>;

/// `str::trim`. The result depends on the text alone.
#[verifier::external_body]
fn trim(text: &str) -> (inner: &str)
    ensures
        inner@ == trimmed(text@),
{
    text.trim()
}

/// The token of an `Authorization` header: what follows `Bearer `, trimmed.
pub open spec fn bearer_token_of(header: Option<Seq<char>>) -> Option<Seq<char>> {
    match header {
        Some(h) => if has_prefix(h, "Bearer "@) {
            Some(trimmed(h.skip(7)))
        } else {
            None
        },
        None => None,
    }
}

/// The bearer token of a request, from its `Authorization` header. A
/// request without the header, or with another scheme, has none.
pub fn bearer_token(header: Option<&str>) -> (token: Option<String>)
    ensures
        text_view(token) == bearer_token_of(
            match header {
                Some(h) => Some(h@),
                None => None,
            },
        ),
{
    proof {
        reveal_strlit("Bearer ");
    }
    match header {
        Some(h) => {
            if starts_with(h, "Bearer ") {
                Some(String::from_str(trim(skip_chars(h, 7))))
            } else {
                None
            }
        },
        None => None,
    }
}

/// Whether the key set must be fetched: none is cached, or the cached one
/// is an hour old.
pub fn jwks_cache_is_stale(age_secs: Option<u64>) -> (stale: bool)
    ensures
        stale == match age_secs {
            Some(age) => age >= JWKS_MAX_AGE_SECS,
            None => true,
        },
{
    match age_secs {
        Some(age) => age >= JWKS_MAX_AGE_SECS,
        None => true,
    }
}

/// What `str::to_lowercase` returns: the text in lower case.
pub uninterp spec fn lowercased(text: Seq<char>) -> Seq<char>;

/// `str::to_lowercase`. The result depends on the text alone.
#[verifier::external_body]
fn to_lowercase(text: &str) -> (lower: String)
    ensures
        lower@ == lowercased(text@),
{
    text.to_lowercase()
}

/// Whether the process runs in production: `APP_ENV` is `prod` or
/// `production`, in any case of letters.
pub fn is_production(app_env: Option<&str>) -> (production: bool)
    ensures
        production == match app_env {
            Some(env) => lowercased(env@) == "prod"@ || lowercased(env@) == "production"@,
            None => false,
        },
{
    match app_env {
        Some(env) => {
            let lower = to_lowercase(env);
            str_eq(lower.as_str(), "prod") || str_eq(lower.as_str(), "production")
        },
        None => false,
    }
}

/// How a cookie is to be set.
#[derive(Debug)]
pub struct CookiePlan {
    pub name: String,
    pub value: String,
    pub path: String,
    pub secure: bool,
    pub http_only: bool,
    pub max_age_secs: i64,
}

/// Minutes for which the session cookies live.
pub const COOKIE_TIMEOUT_MINUTES: i64 = 30;

/// Minutes for which the nonce cookie lives.
pub const COOKIE_NONCE_TIMEOUT_MINUTES: i64 = 5;

/// The access token cookie: closed to scripts and to plain HTTP in
/// production, open to both elsewhere.
pub fn build_access_token_cookie(access_token: &str, production: bool) -> (cookie: CookiePlan)
    ensures
        cookie.name@ == "access_token"@,
        cookie.value@ == access_token@,
        cookie.path@ == "/"@,
        cookie.secure == production,
        cookie.http_only == production,
        cookie.max_age_secs == 1800,
{
    CookiePlan {
        name: String::from_str("access_token"),
        value: String::from_str(access_token),
        path: String::from_str("/"),
        secure: production,
        http_only: production,
        max_age_secs: COOKIE_TIMEOUT_MINUTES * 60,
    }
}

/// The cookie that tells scripts that a user is signed in: always readable
/// by scripts.
pub fn build_logged_in_cookie(production: bool) -> (cookie: CookiePlan)
    ensures
        cookie.name@ == "logged_in"@,
        cookie.value@ == "true"@,
        cookie.path@ == "/"@,
        cookie.secure == production,
        !cookie.http_only,
        cookie.max_age_secs == 1800,
{
    CookiePlan {
        name: String::from_str("logged_in"),
        value: String::from_str("true"),
        path: String::from_str("/"),
        secure: production,
        http_only: false,
        max_age_secs: COOKIE_TIMEOUT_MINUTES * 60,
    }
}

/// The cookie that keeps the nonce of a sign-in: always closed to scripts
/// and to plain HTTP.
pub fn build_oidc_nonce_cookie(nonce: &str) -> (cookie: CookiePlan)
    ensures
        cookie.name@ == "oidc_nonce"@,
        cookie.value@ == nonce@,
        cookie.path@ == "/"@,
        cookie.secure,
        cookie.http_only,
        cookie.max_age_secs == 300,
{
    CookiePlan {
        name: String::from_str("oidc_nonce"),
        value: String::from_str(nonce),
        path: String::from_str("/"),
        secure: true,
        http_only: true,
        max_age_secs: COOKIE_NONCE_TIMEOUT_MINUTES * 60,
    }
}

/// A byte that percent-encoding leaves as it is: a letter, a digit, or one
/// of `-`, `.`, `_`, `~`.
pub open spec fn is_unreserved(b: u8) -> bool {
    (48 <= b <= 57) || (65 <= b <= 90) || (97 <= b <= 122) || b == 45 || b == 46 || b == 95 || b
        == 126
}

/// The upper-case hexadecimal digit of a number below sixteen.
pub open spec fn hex_digit(d: u8) -> char {
    if d < 10 {
        ((48 + d) as u8) as char
    } else {
        ((55 + d) as u8) as char
    }
}

/// The percent-encoding of a byte string: every byte that is not unreserved
/// becomes `%` and its two hexadecimal digits.
pub open spec fn percent_encoded(bytes: Seq<u8>) -> Seq<char>
    decreases bytes.len(),
{
    if bytes.len() == 0 {
        Seq::empty()
    } else {
        let b = bytes.last();
        percent_encoded(bytes.drop_last()) + (if is_unreserved(b) {
            seq![b as char]
        } else {
            seq!['%', hex_digit(b / 16), hex_digit(b % 16)]
        })
    }
}

/// `urlencoding::encode`: the percent-encoding of the UTF-8 bytes of the
/// text, as the crate documents and its source shows it.
#[verifier::external_body]
fn url_encode(text: &str) -> (encoded: String)
    ensures
        encoded@ == percent_encoded(vstd::utf8::encode_utf8(text@)),
{
    urlencoding::encode(text).into_owned()
}

/// The address to which a sign-in is sent.
pub open spec fn login_redirect_of(
    authorization_endpoint: Seq<char>,
    client_id: Seq<char>,
    redirect_uri: Seq<char>,
    scope: Seq<char>,
    state: Seq<char>,
    nonce: Seq<char>,
) -> Seq<char> {
    authorization_endpoint + "?response_type=id_token%20token&client_id="@ + percent_encoded(
        vstd::utf8::encode_utf8(client_id),
    ) + "&redirect_uri="@ + percent_encoded(vstd::utf8::encode_utf8(redirect_uri)) + "&scope="@
        + percent_encoded(vstd::utf8::encode_utf8(scope)) + "&state="@ + percent_encoded(
        vstd::utf8::encode_utf8(state),
    ) + "&response_mode=form_post&nonce="@ + percent_encoded(vstd::utf8::encode_utf8(nonce))
}

/// The address to which a sign-in is sent: the provider's authorization
/// endpoint with the request in its query, every value percent-encoded.
pub fn login_redirect_url(
    authorization_endpoint: &str,
    client_id: &str,
    redirect_uri: &str,
    scope: &str,
    state: &str,
    nonce: &str,
) -> (url: String)
    ensures
        url@ == login_redirect_of(
            authorization_endpoint@,
            client_id@,
            redirect_uri@,
            scope@,
            state@,
            nonce@,
        ),
{
    let mut url = String::from_str(authorization_endpoint);
    url.append("?response_type=id_token%20token&client_id=");
    url.append(url_encode(client_id).as_str());
    url.append("&redirect_uri=");
    url.append(url_encode(redirect_uri).as_str());
    url.append("&scope=");
    url.append(url_encode(scope).as_str());
    url.append("&state=");
    url.append(url_encode(state).as_str());
    url.append("&response_mode=form_post&nonce=");
    url.append(url_encode(nonce).as_str());
    url
}

/// The address to which a sign-out is sent: the provider's end-session
/// endpoint, with the way back percent-encoded in its query.
pub fn logout_redirect_url(end_session_endpoint: &str, app_login_url: &str) -> (url: String)
    ensures
        url@ == end_session_endpoint@ + "?post_logout_redirect_uri="@ + percent_encoded(
            vstd::utf8::encode_utf8(app_login_url@),
        ),
{
    let mut url = String::from_str(end_session_endpoint);
    url.append("?post_logout_redirect_uri=");
    url.append(url_encode(app_login_url).as_str());
    url
}

/// An answer that ends a request at once.
#[derive(Debug)]
pub struct Rejection {
    pub status: u16,
    pub body: String,
}

/// The text of an optional string, empty where there is none.
pub open spec fn text_or_empty(text: Option<String>) -> Seq<char> {
    match text {
        Some(t) => t@,
        None => Seq::empty(),
    }
}

impl OidcCallbackForm {
    /// The answer to a callback that reports an error of the provider:
    /// status 400 with the error and its description.
    pub fn provider_error(&self) -> (rejection: Option<Rejection>)
        ensures
            match self.error {
                Some(e) => rejection is Some && rejection->Some_0.status == 400
                    && rejection->Some_0.body@ == "OIDC Error: "@ + e@ + " - "@ + text_or_empty(
                    self.error_description,
                ),
                None => rejection is None,
            },
    {
        match &self.error {
            Some(e) => {
                let mut body = String::from_str("OIDC Error: ");
                body.append(e.as_str());
                body.append(" - ");
                match &self.error_description {
                    Some(d) => {
                        body.append(d.as_str());
                    },
                    None => {
                        assert(body@ + Seq::<char>::empty() =~= body@);
                    },
                }
                Some(Rejection { status: 400, body })
            },
            None => None,
        }
    }

    /// The id token of the callback and the nonce it must carry. A callback
    /// without an id token, or a request without the nonce cookie, is
    /// answered with status 400.
    pub fn token_to_verify<'a>(&'a self, nonce_cookie: Option<&'a str>) -> (r: Result<
        (&'a String, &'a str),
        Rejection,
    >)
        ensures
            match (self.id_token, nonce_cookie) {
                (Some(token), Some(nonce)) => r is Ok && r->Ok_0.0 == &token && r->Ok_0.1@
                    == nonce@,
                (Some(_), None) => r is Err && r->Err_0.status == 400 && r->Err_0.body@
                    == "Missing nonce cookie"@,
                (None, _) => r is Err && r->Err_0.status == 400 && r->Err_0.body@
                    == "Missing id_token"@,
            },
    {
        match &self.id_token {
            None => Err(Rejection { status: 400, body: String::from_str("Missing id_token") }),
            Some(token) => match nonce_cookie {
                None => Err(
                    Rejection { status: 400, body: String::from_str("Missing nonce cookie") },
                ),
                Some(nonce) => Ok((token, nonce)),
            },
        }
    }

    /// The access token to hand to the browser once the id token has been
    /// checked. An id token that did not verify is answered with status
    /// 401, a callback without an access token with status 400.
    pub fn token_to_keep(&self, verified: bool) -> (r: Result<&String, Rejection>)
        ensures
            match (verified, self.access_token) {
                (true, Some(token)) => r is Ok && r->Ok_0 == &token,
                (true, None) => r is Err && r->Err_0.status == 400 && r->Err_0.body@
                    == "Missing access_token"@,
                (false, _) => r is Err && r->Err_0.status == 401 && r->Err_0.body@
                    == "Invalid ID token"@,
            },
    {
        if !verified {
            return Err(Rejection { status: 401, body: String::from_str("Invalid ID token") });
        }
        match &self.access_token {
            Some(token) => Ok(token),
            None => Err(Rejection { status: 400, body: String::from_str("Missing access_token") }),
        }
    }
}

/// The modulus and the exponent of an RSA key, as the key set writes them.
#[derive(Debug)]
pub struct RsaComponents {
    pub n: String,
    pub e: String,
}

/// The position of the first key with this key id.
pub open spec fn key_position(keys: Seq<JsonValue>, kid: Seq<char>, from: int) -> Option<int>
    decreases keys.len() - from,
{
    if from < 0 || from >= keys.len() {
        None
    } else if keys[from].text_member("kid"@) == Some(kid) {
        Some(from)
    } else {
        key_position(keys, kid, from + 1)
    }
}

/// The RSA components of the key with this key id in a key set, or what is
/// wrong with the set.
pub open spec fn selected_key(jwks: JsonValue, kid: Seq<char>) -> Result<
    (Seq<char>, Seq<char>),
    Seq<char>,
> {
    match jwks.member("keys"@) {
        Some(JsonValue::Array(keys)) => match key_position(keys, kid, 0) {
            None => Err("Key ID not found in JWKS"@),
            Some(i) => match keys[i].text_member("n"@) {
                None => Err("Missing 'n' in key"@),
                Some(n) => match keys[i].text_member("e"@) {
                    None => Err("Missing 'e' in key"@),
                    Some(e) => Ok((n, e)),
                },
            },
        },
        _ => Err("Invalid JWKS format"@),
    }
}

/// Picks from a key set the key that signed a token: the first key whose
/// `kid` is the token's, with its modulus `n` and exponent `e`.
pub fn select_jwk(jwks: &Json, kid: &str) -> (r: Result<RsaComponents, String>)
    ensures
        match r {
            Ok(key) => selected_key(jwks@, kid@) == Ok::<(Seq<char>, Seq<char>), Seq<char>>(
                (key.n@, key.e@),
            ),
            Err(why) => selected_key(jwks@, kid@) == Err::<(Seq<char>, Seq<char>), Seq<char>>(
                why@,
            ),
        },
{
    let keys = match jwks.member("keys") {
        Some(value) => match value.as_array() {
            Some(keys) => keys,
            None => {
                return Err(String::from_str("Invalid JWKS format"));
            },
        },
        None => {
            return Err(String::from_str("Invalid JWKS format"));
        },
    };
    let ghost all = jwks@.member("keys"@)->Some_0->Array_0;
    let mut i: usize = 0;
    while i < keys.len()
        invariant
            i <= keys@.len(),
            all.len() == keys@.len(),
            jwks@.member("keys"@) == Some(JsonValue::Array(all)),
            forall|j: int| 0 <= j < keys@.len() ==> all[j] == (#[trigger] keys@[j])@,
            key_position(all, kid@, 0) == key_position(all, kid@, i as int),
        decreases keys@.len() - i,
    {
        let key = &keys[i];
        let matches = match key.text_member("kid") {
            Some(id) => str_eq(id.as_str(), kid),
            None => false,
        };
        if matches {
            assert(key_position(all, kid@, i as int) == Some(i as int));
            let n = match key.text_member("n") {
                Some(n) => n.clone(),
                None => {
                    return Err(String::from_str("Missing 'n' in key"));
                },
            };
            let e = match key.text_member("e") {
                Some(e) => e.clone(),
                None => {
                    return Err(String::from_str("Missing 'e' in key"));
                },
            };
            return Ok(RsaComponents { n, e });
        }
        i = i + 1;
    }
    Err(String::from_str("Key ID not found in JWKS"))
}

impl IdTokenClaims {
    /// The last check of an id token whose signature, audience and issuer
    /// have been verified: it must carry the expected nonce.
    pub fn check_nonce(self, expected_nonce: &str) -> (r: Result<IdTokenClaims, String>)
        ensures
            match r {
                Ok(claims) => claims == self && text_view(self.nonce) == Some(expected_nonce@),
                Err(why) => why@ == "Nonce mismatch"@ && text_view(self.nonce) != Some(
                    expected_nonce@,
                ),
            },
    {
        if self.is_nonce_valid(expected_nonce) {
            Ok(self)
        } else {
            Err(String::from_str("Nonce mismatch"))
        }
    }
}

} // verus!
