use vstd::prelude::*;
use vstd::string::StrSliceExecFns;
use crate::error::AppError;
use crate::ids::{parse_uuid, uuid_parse, uuid_string, uuid_text};

verus! {

/// What a token is for.
#[derive(Debug, Clone, Copy, PartialEq, Eq, Structural)]
pub enum TokenType {
    Access,
    Refresh,
}

/// The claims a token carries.
pub struct Claims {
    /// The user's id, as UUID text.
    pub sub: String,
    /// Expiry, in seconds since the Unix epoch.
    pub exp: usize,
    pub token_type: TokenType,
}

/// An access token and a refresh token.
pub struct TokenPair {
    pub access_token: String,
    pub refresh_token: String,
}

/// The tokens handed to a client that logs in, signs up or refreshes.
pub struct AuthTokensResponse {
    pub access_token: String,
    pub refresh_token: String,
}

impl From<TokenPair> for AuthTokensResponse {
    fn from(tokens: TokenPair) -> (r: AuthTokensResponse) {
        AuthTokensResponse { access_token: tokens.access_token, refresh_token: tokens.refresh_token }
    }
}

impl vstd::std_specs::convert::FromSpecImpl<TokenPair> for AuthTokensResponse {
    open spec fn obeys_from_spec() -> bool {
        true
    }

    open spec fn from_spec(tokens: TokenPair) -> AuthTokensResponse {
        AuthTokensResponse { access_token: tokens.access_token, refresh_token: tokens.refresh_token }
    }
}

/// The credentials of a login.
pub struct LoginRequest {
    pub email: String,
    pub password: String,
}

/// The details of a new account.
pub struct SignupRequest {
    pub email: String,
    pub name: String,
    pub password: String,
}

/// A refresh token to exchange for a new pair.
pub struct RefreshRequest {
    pub refresh_token: String,
}

/// The credentials of a login, as the service takes them.
pub struct LoginInput {
    pub email: String,
    pub password: String,
}

/// The details of a new account, as the service takes them.
pub struct SignupInput {
    pub email: String,
    pub name: String,
    pub password: String,
}

/// How long an access token lives: 15 minutes, in seconds.
pub const ACCESS_TOKEN_TTL_SECS: i64 = 900;

/// How long a refresh token lives: 30 days, in seconds.
pub const REFRESH_TOKEN_TTL_SECS: i64 = 2592000;

/// The last second that a `chrono` date-time can hold (the end of year 262142).
pub const MAX_TIMESTAMP_SECS: i64 = 8210266876799;

/// How long a token of this type lives, in seconds.
pub open spec fn ttl_of(t: TokenType) -> int {
    match t {
        TokenType::Access => ACCESS_TOKEN_TTL_SECS as int,
        TokenType::Refresh => REFRESH_TOKEN_TTL_SECS as int,
    }
}

/// The user that verified claims vouch for, when the token is of the type
/// `expected`: the UUID read from the subject; `Unauthorized` otherwise.
pub open spec fn claims_user_of(c: Claims, expected: TokenType) -> Result<u128, AppError> {
    if c.token_type != expected {
        Err(AppError::Unauthorized)
    } else {
        match uuid_parse(c.sub@) {
            Some(u) => Ok(u),
            None => Err(AppError::Unauthorized),
        }
    }
}

/// The claims of a token of type `token_type` for `user_id`, issued at `now_secs`
/// (seconds since the Unix epoch): the user's id as UUID text, and an expiry
/// one lifetime later. Read back for the same type of token, the claims name
/// that very user.
pub fn token_claims(user_id: u128, now_secs: i64, token_type: TokenType) -> (c: Claims)
    requires
        now_secs + ttl_of(token_type) <= MAX_TIMESTAMP_SECS,
    ensures
        c.sub@ == uuid_text(user_id),
        c.exp == (now_secs + ttl_of(token_type)) as usize,
        c.token_type == token_type,
        claims_user_of(c, token_type) == Ok::<u128, AppError>(user_id),
{
    let ttl: i64 = match token_type {
        TokenType::Access => ACCESS_TOKEN_TTL_SECS,
        TokenType::Refresh => REFRESH_TOKEN_TTL_SECS,
    };
    let expiry: i64 = now_secs + ttl;
    Claims { sub: uuid_string(user_id), exp: expiry as usize, token_type }
}

/// The user that verified claims vouch for, for a token of the type `expected`.
pub fn claims_user(c: &Claims, expected: TokenType) -> (r: Result<u128, AppError>)
    ensures
        r == claims_user_of(*c, expected),
{
    if c.token_type != expected {
        return Err(AppError::Unauthorized);
    }
    match parse_uuid(c.sub.as_str()) {
        Some(u) => Ok(u),
        None => Err(AppError::Unauthorized),
    }
}

/// The token in an `Authorization` header: the text after `Bearer `, if the header starts so.
pub open spec fn bearer_token_of(header: Seq<char>) -> Option<Seq<char>> {
    let prefix = "Bearer "@;
    if header.len() >= prefix.len() && header.subrange(0, prefix.len() as int) == prefix {
        Some(header.subrange(prefix.len() as int, header.len() as int))
    } else {
        None
    }
}

/// The token of an `Authorization` header of the form `Bearer <token>`.
pub fn bearer_token(header: &str) -> (r: Option<&str>)
    ensures
        match bearer_token_of(header@) {
            Some(t) => r matches Some(s) && s@ == t,
            None => r is None,
        },
{
    let prefix = "Bearer ";
    proof {
        reveal_strlit("Bearer ");
    }
    let n = header.unicode_len();
    if n < 7 {
        return None;
    }
    let head = header.substring_char(0, 7);
    if crate::text::str_eq(head, prefix) {
        Some(header.substring_char(7, n))
    } else {
        None
    }
}

/// The user named by an `x-user-id` header, given as text (`None` when the
/// header is missing or not visible ASCII): its UUID, else `Unauthorized`.
pub fn user_id_from_headers(x_user_id: Option<&str>) -> (r: Result<u128, AppError>)
    ensures
        match x_user_id {
            None => r == Err::<u128, AppError>(AppError::Unauthorized),
            Some(v) => match uuid_parse(v@) {
                Some(u) => r == Ok::<u128, AppError>(u),
                None => r == Err::<u128, AppError>(AppError::Unauthorized),
            },
        },
{
    match x_user_id {
        None => Err(AppError::Unauthorized),
        Some(v) => match parse_uuid(v) {
            Some(u) => Ok(u),
            None => Err(AppError::Unauthorized),
        },
    }
}

} // verus!
