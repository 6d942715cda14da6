//! Bearer tokens: the claims they carry and how they travel in a header.

use crate::error::{AppError, AppErrorView, AppResult};
use crate::text::{is_valid_email, regex_is_match, email_pattern, spec_starts_with, starts_with};
use vstd::prelude::*;
use vstd::string::*;
use vstd::utf8::encode_utf8;

verus! {

/// Seconds a token stays valid: one day.
pub const TOKEN_LIFETIME_SECS: u64 = 86400u64;

/// What a token says: whose it is, when it was issued and when it ends,
/// the latter two in seconds since the epoch.
#[derive(Debug)]
pub struct Claims {
    pub sub: String,
    pub exp: usize,
    pub iat: usize,
}

/// Issues and checks tokens with one secret.
pub struct JwtService {
    secret: Vec<u8>,
}

impl JwtService {
    /// A service for the given secret, or for the development secret where
    /// none is configured.
    pub fn new(secret: Option<String>) -> (out: Self)
        ensures
            out.secret_bytes() == (match secret {
                Some(text) => encode_utf8(text@),
                None => encode_utf8("your-secret-key-change-in-production"@),
            }),
    {
        let secret = match secret {
            Some(text) => text.as_str().as_bytes_vec(),
            None => "your-secret-key-change-in-production".as_bytes_vec(),
        };
        JwtService { secret }
    }

    /// The secret.
    pub closed spec fn secret_bytes(&self) -> Seq<u8> {
        self.secret@
    }

    /// The secret.
    pub fn secret(&self) -> (out: &Vec<u8>)
        ensures
            out@ == self.secret_bytes(),
    {
        &self.secret
    }

    /// Claims of a token issued to `user_id` at `now_secs`, valid for a day.
    /// `None` where the end of that day is beyond the machine's integers.
    pub fn claims_for(user_id: &str, now_secs: usize) -> (out: Option<Claims>)
        ensures
            out is Some <==> now_secs + TOKEN_LIFETIME_SECS <= usize::MAX,
            out is Some ==> {
                &&& out->Some_0.sub@ == user_id@
                &&& out->Some_0.iat == now_secs
                &&& out->Some_0.exp == now_secs + TOKEN_LIFETIME_SECS
            },
    {
        match now_secs.checked_add(24 * 60 * 60) {
            Some(exp) => Some(Claims { sub: user_id.to_owned(), exp, iat: now_secs }),
            None => None,
        }
    }
}

/// The token of an `Authorization` header: what follows `Bearer `, where the
/// header starts so.
pub open spec fn spec_bearer_token(header: Seq<char>) -> Option<Seq<char>> {
    if spec_starts_with(header, "Bearer "@) {
        Some(header.subrange(7, header.len() as int))
    } else {
        None
    }
}

/// See [`spec_bearer_token`].
pub fn extract_token_from_header(auth_header: &str) -> (out: Option<&str>)
    ensures
        out is Some == spec_bearer_token(auth_header@) is Some,
        out is Some ==> Some(out->Some_0@) == spec_bearer_token(auth_header@),
{
    proof {
        reveal_strlit("Bearer ");
    }
    if starts_with(auth_header, "Bearer ") {
        let len = auth_header.unicode_len();
        Some(auth_header.substring_char(7, len))
    } else {
        None
    }
}

/// The token that a request carries, given its `Authorization` header: a
/// request without the header, or with one that does not start with
/// `Bearer `, is refused.
pub fn bearer_token<'a>(auth_header: Option<&'a str>) -> (out: AppResult<&'a str>)
    ensures
        auth_header is None ==> out is Err && out->Err_0@ == AppErrorView::Auth(
            "Authorization header is required"@,
        ),
        auth_header is Some && spec_bearer_token(auth_header->Some_0@) is None ==> out is Err
            && out->Err_0@ == AppErrorView::Auth("Token must be in format: Bearer <token>"@),
        auth_header is Some && spec_bearer_token(auth_header->Some_0@) is Some ==> out is Ok
            && Some(out->Ok_0@) == spec_bearer_token(auth_header->Some_0@),
{
    let header = match auth_header {
        Some(header) => header,
        None => {
            return Err(AppError::auth("Authorization header is required"));
        },
    };
    match extract_token_from_header(header) {
        Some(token) => Ok(token),
        None => Err(AppError::auth("Token must be in format: Bearer <token>")),
    }
}

/// Answer to a successful sign-in.
#[derive(Debug)]
pub struct TokenResponse {
    pub token: String,
    pub token_type: String,
    pub expires_in: u64,
}

impl Default for TokenResponse {
    fn default() -> (out: Self)
        ensures
            out.token@ == ""@,
            out.token_type@ == "Bearer"@,
            out.expires_in == TOKEN_LIFETIME_SECS,
    {
        proof {
            reveal_strlit("");
        }
        TokenResponse { token: String::new(), token_type: "Bearer".to_owned(), expires_in: 86400 }
    }
}

/// Whether a text has between `min` and `max` characters.
pub open spec fn length_within(text: Seq<char>, min: int, max: int) -> bool {
    min <= text.len() <= max
}

/// Whether a text has between `min` and `max` characters.
pub fn has_length_within(text: &str, min: usize, max: usize) -> (out: bool)
    ensures
        out == length_within(text@, min as int, max as int),
{
    let len = text.unicode_len();
    min <= len && len <= max
}

/// Body of a sign-up request.
#[derive(Debug)]
pub struct SignupRequest {
    pub email: String,
    pub username: String,
    pub password: String,
}

impl SignupRequest {
    /// Whether the request may be served: the address has the form of one,
    /// the name has 3 to 30 characters and the password at least 8.
    pub open spec fn valid(&self) -> bool {
        &&& regex_is_match(email_pattern(), self.email@) == Some(true)
        &&& length_within(self.username@, 3, 30)
        &&& self.password@.len() >= 8
    }

    /// See [`SignupRequest::valid`].
    pub fn validate(&self) -> (out: bool)
        ensures
            out == self.valid(),
    {
        is_valid_email(self.email.as_str()) && has_length_within(self.username.as_str(), 3, 30)
            && self.password.as_str().unicode_len() >= 8
    }
}

/// Body of a sign-in request.
#[derive(Debug)]
pub struct SigninRequest {
    pub email: String,
    pub password: String,
}

impl SigninRequest {
    /// Whether the request may be served: the address has the form of one.
    pub open spec fn valid(&self) -> bool {
        regex_is_match(email_pattern(), self.email@) == Some(true)
    }

    /// See [`SigninRequest::valid`].
    pub fn validate(&self) -> (out: bool)
        ensures
            out == self.valid(),
    {
        is_valid_email(self.email.as_str())
    }
}

/// Body of a request for a new bot.
#[derive(Debug)]
pub struct CreateBotRequest {
    pub name: String,
    pub pool_address: String,
}

impl CreateBotRequest {
    /// Whether the request may be served: the name has 1 to 100 characters
    /// and the pool's address 32 to 44.
    pub open spec fn valid(&self) -> bool {
        length_within(self.name@, 1, 100) && length_within(self.pool_address@, 32, 44)
    }

    /// See [`CreateBotRequest::valid`].
    pub fn validate(&self) -> (out: bool)
        ensures
            out == self.valid(),
    {
        has_length_within(self.name.as_str(), 1, 100) && has_length_within(
            self.pool_address.as_str(),
            32,
            44,
        )
    }
}

/// Query of a request for recent trades.
#[derive(Debug)]
pub struct TradeQuery {
    pub limit: Option<i64>,
}

} // verus!
