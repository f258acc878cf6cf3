//! OAuth2 credentials and the token lifecycle: access/refresh tokens,
//! the `Login` session object with its expiry predicates, the
//! token-exchange request bodies, and the interpretation of the token
//! endpoint's response.

use vstd::prelude::*;
use vstd::string::StringExecFns;
use crate::api::ApiError;
use crate::config::Config;
use crate::json::{parse_members, parse_members_at, scan_ws, ws_end};
use crate::numeric::decimal_digits;
use crate::numeric::to_decimal;

verus! {

/// An opaque string credential sent as a bearer token.
#[derive(Debug, PartialEq, Eq)]
pub struct AccessToken(pub String);

/// An opaque string credential exchanged for a new `Login`.
#[derive(Debug, PartialEq, Eq)]
pub struct RefreshToken(pub String);

/// A login session: the two token credentials plus the absolute
/// epoch-seconds timestamp at which the access token expires.
#[derive(Debug, PartialEq, Eq)]
pub struct Login {
    pub access_token: AccessToken,
    pub refresh_token: RefreshToken,
    pub expires_at: u64,
}

/// Default timeout for `will_expire_soon`: ten minutes, in seconds.
pub const DEFAULT_EXPIRY_TIMEOUT: u64 = 600;

/// A login is expired at `now` iff its expiry lies strictly before
/// `now`.
pub open spec fn spec_is_expired(login: Login, now: u64) -> bool {
    login.expires_at < now
}

/// The timeout used by `will_expire_soon`: the given one, or the
/// default of 600 seconds when none is given.
pub open spec fn effective_timeout(timeout: Option<u64>) -> u64 {
    match timeout {
        Some(t) => t,
        None => DEFAULT_EXPIRY_TIMEOUT,
    }
}

/// A login will expire soon iff its expiry lies strictly before
/// `now + timeout` (exact arithmetic, no wrap-around).
pub open spec fn spec_will_expire_soon(login: Login, now: u64, timeout: Option<u64>) -> bool {
    login.expires_at < now + effective_timeout(timeout)
}

impl Login {
    /// Checks if the access token has expired at time `now` (epoch
    /// seconds, to be read fresh by the caller): true iff
    /// `expires_at < now`, so a login expiring exactly now is not yet
    /// expired.
    pub fn is_expired(&self, now: u64) -> (expired: bool)
        ensures
            expired == spec_is_expired(*self, now),
    {
        self.expires_at < now
    }

    /// Checks if the access token expires within the given timeout
    /// from time `now` (both in seconds): true iff
    /// `expires_at < now + timeout`, with a default timeout of
    /// exactly 600 seconds when none is given. A login expiring
    /// exactly `timeout` seconds from now is not "expiring soon".
    pub fn will_expire_soon(&self, now: u64, timeout: Option<u64>) -> (soon: bool)
        ensures
            soon == spec_will_expire_soon(*self, now, timeout),
    {
        let timeout: u64 = match timeout {
            Some(t) => t,
            None => DEFAULT_EXPIRY_TIMEOUT,
        };
        if now <= u64::MAX - timeout {
            self.expires_at < now + timeout
        } else {
            true
        }
    }
}

/// A login expiring exactly at `now` is not expired, while one that
/// expired one second earlier is.
pub proof fn lemma_expiry_boundary(login: Login, now: u64)
    ensures
        login.expires_at == now ==> !spec_is_expired(login, now),
        now >= 1 && login.expires_at == now - 1 ==> spec_is_expired(login, now),
{
}

/// Under the default timeout, a login expiring exactly 600 seconds
/// from `now` is not "expiring soon", while one expiring 599 seconds
/// from `now` is.
pub proof fn lemma_expiry_timeout_boundary(login: Login, now: u64)
    ensures
        login.expires_at == now + DEFAULT_EXPIRY_TIMEOUT ==> !spec_will_expire_soon(
            login,
            now,
            None,
        ),
        login.expires_at == now + DEFAULT_EXPIRY_TIMEOUT - 1 ==> spec_will_expire_soon(
            login,
            now,
            None,
        ),
{
}

/// The fields a well-formed token response body yields: access token,
/// refresh token, expiry timestamp. The accepted bodies are one JSON
/// object holding exactly one `access_token` string member, one
/// `refresh_token` string member and one `expires_at` number member,
/// in any order, besides any ignored unknown members.
pub open spec fn spec_parse_login(s: Seq<char>) -> Option<(Seq<char>, Seq<char>, u64)> {
    let i = ws_end(s, 0);
    if i < s.len() && s[i] == '{' {
        match parse_members(s, i + 1, (None, None, None)) {
            None => None,
            Some((acc, j)) => {
                let t = ws_end(s, j);
                if t == s.len() {
                    match (acc.0, acc.1, acc.2) {
                        (
                            Option::Some(access),
                            Option::Some(refresh),
                            Option::Some(expires),
                        ) => Some((access, refresh, expires)),
                        _ => None,
                    }
                } else {
                    None
                }
            },
        }
    } else {
        None
    }
}

/// Deserializes a token response body into a `Login`: returns `Ok`
/// with exactly the fields `spec_parse_login` extracts, and
/// `Err(ApiError::Deserialization)` iff the body is not well-formed.
pub fn parse_login(body: &str) -> (r: Result<Login, ApiError>)
    ensures
        match spec_parse_login(body@) {
            Some(f) => match r {
                Ok(login) => login.access_token.0@ == f.0 && login.refresh_token.0@ == f.1
                    && login.expires_at == f.2,
                Err(_) => false,
            },
            None => r == Err::<Login, ApiError>(ApiError::Deserialization),
        },
{
    let n = body.unicode_len();
    let i = scan_ws(body, 0);
    if i < n && body.get_char(i) == '{' {
        let empty: (Option<String>, Option<String>, Option<u64>) = (None, None, None);
        match parse_members_at(body, i + 1, empty) {
            None => Err(ApiError::Deserialization),
            Some((acc, j)) => {
                let t = scan_ws(body, j);
                if t == n {
                    match (acc.0, acc.1, acc.2) {
                        (Some(access), Some(refresh), Some(expires)) => Ok(
                            Login {
                                access_token: AccessToken(access),
                                refresh_token: RefreshToken(refresh),
                                expires_at: expires,
                            },
                        ),
                        _ => Err(ApiError::Deserialization),
                    }
                } else {
                    Err(ApiError::Deserialization)
                }
            },
        }
    } else {
        Err(ApiError::Deserialization)
    }
}

/// Interprets one answer of the token endpoint: a non-2xx status is a
/// transport failure; on a 2xx status the body is deserialized as
/// `parse_login` does.
pub fn interpret_token_response(status: u16, body: &str) -> (r: Result<Login, ApiError>)
    ensures
        !(200 <= status < 300) ==> r == Err::<Login, ApiError>(ApiError::Transport),
        200 <= status < 300 ==> match spec_parse_login(body@) {
            Some(f) => match r {
                Ok(login) => login.access_token.0@ == f.0 && login.refresh_token.0@ == f.1
                    && login.expires_at == f.2,
                Err(_) => false,
            },
            None => r == Err::<Login, ApiError>(ApiError::Deserialization),
        },
{
    if 200 <= status && status < 300 {
        parse_login(body)
    } else {
        Err(ApiError::Transport)
    }
}

/// The token-exchange request body for logging in with an OAuth
/// authorization code: exactly the four pairs client_id,
/// client_secret, code, grant_type=authorization_code, in that order,
/// with the client id rendered in decimal.
pub fn login_request_body(code: &str, config: &Config) -> (body: Vec<(String, String)>)
    ensures
        body@.len() == 4,
        body@[0].0@ == "client_id"@ && body@[0].1@ == decimal_digits(config.client_id as nat),
        body@[1].0@ == "client_secret"@ && body@[1].1@ == config.client_secret@,
        body@[2].0@ == "code"@ && body@[2].1@ == code@,
        body@[3].0@ == "grant_type"@ && body@[3].1@ == "authorization_code"@,
{
    let mut body: Vec<(String, String)> = Vec::new();
    body.push(("client_id".to_owned(), to_decimal(config.client_id)));
    body.push(("client_secret".to_owned(), config.client_secret.clone()));
    body.push(("code".to_owned(), code.to_owned()));
    body.push(("grant_type".to_owned(), "authorization_code".to_owned()));
    body
}

/// The token-exchange request body for refreshing an access token:
/// exactly the four pairs client_id, client_secret, refresh_token,
/// grant_type=refresh_token, in that order, with the client id
/// rendered in decimal.
pub fn refresh_request_body(token: &RefreshToken, config: &Config) -> (body: Vec<
    (String, String),
>)
    ensures
        body@.len() == 4,
        body@[0].0@ == "client_id"@ && body@[0].1@ == decimal_digits(config.client_id as nat),
        body@[1].0@ == "client_secret"@ && body@[1].1@ == config.client_secret@,
        body@[2].0@ == "refresh_token"@ && body@[2].1@ == token.0@,
        body@[3].0@ == "grant_type"@ && body@[3].1@ == "refresh_token"@,
{
    let mut body: Vec<(String, String)> = Vec::new();
    body.push(("client_id".to_owned(), to_decimal(config.client_id)));
    body.push(("client_secret".to_owned(), config.client_secret.clone()));
    body.push(("refresh_token".to_owned(), token.0.clone()));
    body.push(("grant_type".to_owned(), "refresh_token".to_owned()));
    body
}

/// The revocation request body: the single pair naming the access
/// token to revoke.
pub fn deauthorize_request_body(token: &AccessToken) -> (body: Vec<(String, String)>)
    ensures
        body@.len() == 1,
        body@[0].0@ == "access_token"@ && body@[0].1@ == token.0@,
{
    let mut body: Vec<(String, String)> = Vec::new();
    body.push(("access_token".to_owned(), token.0.clone()));
    body
}

} // verus!
