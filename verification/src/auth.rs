use vstd::prelude::*;

use crate::clock::{max_timestamp, now_instant, now_unix_seconds, rfc3339_at, rfc3339_text};
use crate::text::{str_eq, strip_prefix, strip_prefix_spec};

verus! {

/// The claims of an access token.
#[derive(Debug, Clone)]
pub struct JwtClaims {
    pub sub: String,
    pub exp: usize,
    pub iat: usize,
}

/// The body of a login request.
#[derive(Debug)]
pub struct LoginRequest {
    pub api_key: String,
}

/// The answer to a successful login.
#[derive(Debug)]
pub struct LoginResponse {
    pub token: String,
    pub expires_at: String,
}

/// How long an issued token is valid, in seconds: a day.
pub open spec fn token_lifetime() -> nat {
    86400
}

/// The subject that a login issues tokens to.
pub open spec fn login_subject() -> Seq<char> {
    "admin"@
}

impl JwtClaims {
    /// The claims of a token issued to `sub` at `now`: issued then, expiring
    /// a day later.
    pub fn issue(sub: &str, now: usize) -> (c: JwtClaims)
        requires
            now + token_lifetime() <= usize::MAX,
        ensures
            c.sub@ == sub@,
            c.iat == now,
            c.exp == now + token_lifetime(),
    {
        JwtClaims { sub: String::from_str(sub), iat: now, exp: now + 86400 }
    }

    /// The claims of a token issued to `sub` now: issued at the clock's
    /// count of seconds, read as an unsigned number, and expiring a day
    /// later. The issue time is a second that chrono can represent, never
    /// past its last one. Should the expiry not fit in a `usize`, it wraps
    /// around, as the unchecked addition of an optimised build does.
    pub fn issue_now(sub: &str) -> (c: JwtClaims)
        ensures
            c.sub@ == sub@,
            c.iat <= max_timestamp(),
            c.iat + token_lifetime() <= usize::MAX ==> c.exp == c.iat + token_lifetime(),
            c.iat + token_lifetime() > usize::MAX ==> c.exp == c.iat + token_lifetime() - (
            usize::MAX + 1),
    {
        let now = now_unix_seconds() as usize;
        JwtClaims { sub: String::from_str(sub), iat: now, exp: now.wrapping_add(86400) }
    }
}

/// Why a request or a login was refused.
#[derive(Debug)]
pub enum AuthError {
    /// Neither a bearer token nor the master key came with the request.
    MissingAuthorization,
    /// The bearer token did not verify.
    InvalidToken,
    /// A login gave the wrong key.
    InvalidApiKey,
    /// The token could not be made; the text says why.
    TokenGeneration(String),
}

impl AuthError {
    /// The HTTP status of a refusal.
    pub open spec fn spec_status(&self) -> u16 {
        match self {
            AuthError::TokenGeneration(_) => 500,
            _ => 401,
        }
    }

    /// The error text of a refusal.
    pub open spec fn spec_message(&self) -> Seq<char> {
        match self {
            AuthError::MissingAuthorization => "Missing Authorization header"@,
            AuthError::InvalidToken => "Invalid or expired token"@,
            AuthError::InvalidApiKey => "Invalid API key"@,
            AuthError::TokenGeneration(e) => "Token generation failed: "@ + e@,
        }
    }

    /// The HTTP status of a refusal: `500` when no token could be made,
    /// `401` otherwise.
    pub fn status(&self) -> (code: u16)
        ensures
            code == self.spec_status(),
    {
        match self {
            AuthError::TokenGeneration(_) => 500,
            _ => 401,
        }
    }

    /// The error text of a refusal.
    pub fn message(&self) -> (m: String)
        ensures
            m@ == self.spec_message(),
    {
        match self {
            AuthError::MissingAuthorization => String::from_str("Missing Authorization header"),
            AuthError::InvalidToken => String::from_str("Invalid or expired token"),
            AuthError::InvalidApiKey => String::from_str("Invalid API key"),
            AuthError::TokenGeneration(e) => {
                let mut m = String::from_str("Token generation failed: ");
                m.append(e.as_str());
                m
            },
        }
    }
}

/// The token that an `Authorization` header carries: what follows `Bearer `.
pub open spec fn bearer_spec(header: Option<Seq<char>>) -> Option<Seq<char>> {
    match header {
        Some(h) => strip_prefix_spec(h, "Bearer "@),
        None => None,
    }
}

/// The token that an `Authorization` header carries, if it is a bearer
/// token.
pub fn bearer_token(header: Option<&str>) -> (t: Option<&str>)
    ensures
        match header {
            Some(h) => match t {
                Some(tok) => strip_prefix_spec(h@, "Bearer "@) == Some(tok@),
                None => strip_prefix_spec(h@, "Bearer "@) is None,
            },
            None => t is None,
        },
{
    match header {
        Some(h) => strip_prefix(h, "Bearer "),
        None => None,
    }
}

/// What the guard in front of the protected routes does with a request.
#[derive(Debug)]
pub enum AuthStep {
    /// Let the request through.
    Allow,
    /// Refuse it.
    Reject(AuthError),
    /// Verify this bearer token, then decide with `after_verification`.
    Verify(String),
}

/// Whether a request's `X-API-Key` header is the master key.
pub open spec fn master_key_given(api_key: Option<Seq<char>>, master: Seq<char>) -> bool {
    api_key is Some && api_key->0 == master
}

/// The guard's first decision: a request that gives the master key in
/// `X-API-Key` passes; else one with a bearer token has it verified; else it
/// is refused for want of an `Authorization` header.
pub fn authorize(authorization: Option<&str>, api_key: Option<&str>, master: &str) -> (s: AuthStep)
    ensures
        master_key_given(
            match api_key {
                Some(k) => Some(k@),
                None => None,
            },
            master@,
        ) ==> s is Allow,
        !master_key_given(
            match api_key {
                Some(k) => Some(k@),
                None => None,
            },
            master@,
        ) ==> match bearer_spec(
            match authorization {
                Some(h) => Some(h@),
                None => None,
            },
        ) {
            Some(tok) => s matches AuthStep::Verify(t) && t@ == tok,
            None => s matches AuthStep::Reject(e) && e is MissingAuthorization,
        },
{
    if let Some(k) = api_key {
        if str_eq(k, master) {
            return AuthStep::Allow;
        }
    }
    match bearer_token(authorization) {
        Some(tok) => AuthStep::Verify(String::from_str(tok)),
        None => AuthStep::Reject(AuthError::MissingAuthorization),
    }
}

/// The guard's decision once the bearer token was checked: through when it
/// verified, refused as invalid or expired otherwise.
pub fn after_verification(verified: bool) -> (s: AuthStep)
    ensures
        verified ==> s is Allow,
        !verified ==> (s matches AuthStep::Reject(e) && e is InvalidToken),
{
    if verified {
        AuthStep::Allow
    } else {
        AuthStep::Reject(AuthError::InvalidToken)
    }
}

/// A login is accepted exactly when it gives the master key.
pub fn check_login(request: &LoginRequest, master: &str) -> (r: Result<(), AuthError>)
    ensures
        r is Ok <==> request.api_key@ == master@,
        r matches Err(e) ==> e is InvalidApiKey,
{
    if str_eq(request.api_key.as_str(), master) {
        Ok(())
    } else {
        Err(AuthError::InvalidApiKey)
    }
}

/// The subject that a login issues its token to.
pub fn login_subject_name() -> (s: &'static str)
    ensures
        s@ == login_subject(),
{
    "admin"
}

/// How long after a login its answer says the token expires, in seconds:
/// a day.
pub open spec fn login_validity() -> int {
    86400
}

/// The instant, in seconds since the epoch, that a login at `now` gives as
/// its expiry: a day later, held at chrono's last representable second,
/// past which no instant can be written.
pub open spec fn login_expiry_seconds(now: int) -> int {
    if now + login_validity() <= max_timestamp() {
        now + login_validity()
    } else {
        max_timestamp()
    }
}

/// The answer to an accepted login at the instant `now_secs` seconds and
/// `now_nanos` nanoseconds after the epoch, given the outcome of making its
/// token: the token and, in RFC 3339, the instant a day later; or a refusal
/// that carries the reason the token could not be made.
pub fn login_response_at(token: Result<String, String>, now_secs: i64, now_nanos: u32) -> (r: Result<
    LoginResponse,
    AuthError,
>)
    requires
        0 <= now_secs <= max_timestamp(),
        now_nanos < 1_000_000_000,
    ensures
        match token {
            Ok(t) => r matches Ok(resp) && resp.token == t && resp.expires_at@ == rfc3339_text(
                login_expiry_seconds(now_secs as int),
                now_nanos as int,
            ),
            Err(e) => r == Err::<LoginResponse, AuthError>(AuthError::TokenGeneration(e)),
        },
{
    match token {
        Ok(t) => {
            let expiry: i64 = if now_secs <= 8_210_266_876_799 - 86400 {
                now_secs + 86400
            } else {
                8_210_266_876_799
            };
            let expires_at = match rfc3339_at(expiry, now_nanos) {
                Some(text) => text,
                None => String::new(),
            };
            Ok(LoginResponse { token: t, expires_at })
        },
        Err(e) => Err(AuthError::TokenGeneration(e)),
    }
}

/// The answer to an accepted login made now, given the outcome of making
/// its token: the token and the RFC 3339 instant a day after the current
/// one, or a refusal that carries the reason the token could not be made.
pub fn login_response(token: Result<String, String>) -> (r: Result<LoginResponse, AuthError>)
    ensures
        match token {
            Ok(t) => r matches Ok(resp) && resp.token == t && exists|now: int, nanos: int|
                0 <= now <= max_timestamp() && 0 <= nanos < 1_000_000_000
                    && resp.expires_at@ == rfc3339_text(login_expiry_seconds(now), nanos),
            Err(e) => r == Err::<LoginResponse, AuthError>(AuthError::TokenGeneration(e)),
        },
{
    let (now_secs, now_nanos) = now_instant();
    let r = login_response_at(token, now_secs, now_nanos);
    let ghost witness = rfc3339_text(login_expiry_seconds(now_secs as int), now_nanos as int);
    r
}

} // verus!
