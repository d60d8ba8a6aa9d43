//! Login: credentials buy an access token and, on request, a refresh token;
//! a refresh token buys a new access token and nothing else.

use crate::models::admin::AdminModel;
use crate::routes::rejection::{INTERNAL_SERVER_ERROR, NOT_FOUND, Rejection, UNAUTHORIZED};
use crate::token::{
    Claims, create_jwt_at, issue_outcome, REFRESH_TTL, signed_payload, TokenClass, TokenError,
    verdict, verify,
};
use vstd::prelude::*;
use vstd::string::*;

verus! {

/// A login request.
#[derive(Debug)]
pub struct LoginSchema {
    pub username: String,
    pub password: String,
    pub refresh: Option<bool>,
    pub refresh_token: Option<String>,
}

/// The reply to a login with credentials.
#[derive(Debug)]
pub struct LoginResponse {
    pub status: String,
    pub access_token: String,
    pub refresh_token: Option<String>,
    pub user: UserInfo,
}

/// Who logged in.
#[derive(Debug)]
pub struct UserInfo {
    pub username: String,
}

/// The reply to a login with a refresh token.
#[derive(Debug)]
pub struct RefreshResponse {
    pub status: String,
    pub access_token: String,
}

/// What a login request asks for.
#[derive(Debug)]
pub enum LoginPath {
    /// A new access token for a refresh token.
    Refresh { refresh_token: String },
    /// Tokens for a name and a password.
    Credentials { username: String, password: String, want_refresh: bool },
}

/// What the store knows of an administrator's name.
#[derive(Debug)]
pub enum AdminLookup {
    Found(AdminModel),
    Missing,
    /// The store failed; the text says how.
    Failed(String),
}

/// How a password stands to a stored hash.
#[derive(Clone, Copy, Debug, PartialEq, Eq, Structural)]
pub enum PasswordCheck {
    Matches,
    Differs,
    /// The stored text is no password hash.
    UnreadableHash,
}

/// How Argon2 judges a password against a stored hash string.
pub uninterp spec fn argon2_check(password: Seq<char>, hash: Seq<char>) -> PasswordCheck;

/// `argon2::PasswordHash::new` on the stored text, then
/// `Argon2::default().verify_password`: whether the text is a password hash,
/// and whether the password hashes to it under the parameters and the salt
/// that it names. The outcome depends on the password and the text alone.
#[verifier::external_body]
fn check_password(password: &str, hash: &str) -> (outcome: PasswordCheck)
    ensures
        outcome == argon2_check(password@, hash@),
{
    match argon2::PasswordHash::new(hash) {
        Err(_) => PasswordCheck::UnreadableHash,
        Ok(parsed) => match argon2::PasswordVerifier::verify_password(
            &argon2::Argon2::default(),
            password.as_bytes(),
            &parsed,
        ) {
            Ok(()) => PasswordCheck::Matches,
            Err(_) => PasswordCheck::Differs,
        },
    }
}

/// The path that a login request takes: a request that carries a refresh
/// token is a refresh, whatever else it carries; any other is a login with
/// credentials, which asks for a refresh token only where it says so.
pub fn login(body: LoginSchema) -> (path: LoginPath)
    ensures
        match body.refresh_token {
            Some(token) => path == (LoginPath::Refresh { refresh_token: token }),
            None => path == (LoginPath::Credentials {
                username: body.username,
                password: body.password,
                want_refresh: body.refresh == Some(true),
            }),
        },
{
    match body.refresh_token {
        Some(token) => LoginPath::Refresh { refresh_token: token },
        None => LoginPath::Credentials {
            username: body.username,
            password: body.password,
            want_refresh: match body.refresh {
                Some(want) => want,
                None => false,
            },
        },
    }
}

/// The outcome of a login with credentials at time `now`.
pub open spec fn login_outcome(
    lookup: AdminLookup,
    password: Seq<char>,
    want_refresh: bool,
    secret: Seq<char>,
    now: int,
    reply: Result<LoginResponse, Rejection>,
) -> bool {
    match lookup {
        AdminLookup::Missing => reply matches Err(r) && r.says(
            NOT_FOUND,
            "User not found. Please register first."@,
        ),
        AdminLookup::Failed(why) => reply matches Err(r) && r.says(
            INTERNAL_SERVER_ERROR,
            "Database error: "@ + why@,
        ),
        AdminLookup::Found(admin) => match argon2_check(password, admin.password@) {
            PasswordCheck::UnreadableHash => reply matches Err(r) && r.says(
                INTERNAL_SERVER_ERROR,
                "Invalid password hash format"@,
            ),
            PasswordCheck::Differs => reply matches Err(r) && r.says(
                UNAUTHORIZED,
                "Invalid credentials"@,
            ),
            PasswordCheck::Matches => match issue_outcome(
                admin.username@,
                TokenClass::Access,
                secret,
                now,
            ) {
                Err(_) => reply matches Err(r) && r.says(
                    INTERNAL_SERVER_ERROR,
                    "Failed to generate access token"@,
                ),
                Ok(access) => if !want_refresh {
                    reply matches Ok(response) && response.status@ == "success"@
                        && response.access_token@ == access && response.refresh_token is None
                        && response.user.username@ == admin.username@
                } else {
                    match issue_outcome(admin.username@, TokenClass::Refresh, secret, now) {
                        Err(_) => reply matches Err(r) && r.says(
                            INTERNAL_SERVER_ERROR,
                            "Failed to generate refresh token"@,
                        ),
                        Ok(refresh) => reply matches Ok(response) && response.status@
                            == "success"@ && response.access_token@ == access
                            && response.user.username@ == admin.username@
                            && response.refresh_token is Some
                            && response.refresh_token->Some_0@ == refresh,
                    }
                },
            },
        },
    }
}

/// Serves a login with credentials at time `now`, given what the store knows
/// of the name. An unknown name is 404; a password that does not match is
/// 401; a stored hash that cannot be read, a failing store and a failing
/// signer are 500. Otherwise the reply carries an access token and, where
/// one was asked for, a refresh token.
pub fn handle_login(
    lookup: AdminLookup,
    password: &str,
    want_refresh: bool,
    secret: &str,
    now: u64,
) -> (reply: Result<LoginResponse, Rejection>)
    requires
        now + REFRESH_TTL <= i64::MAX,
    ensures
        login_outcome(lookup, password@, want_refresh, secret@, now as int, reply),
{
    let admin = match lookup {
        AdminLookup::Found(admin) => admin,
        AdminLookup::Missing => {
            return Err(
                Rejection {
                    status: NOT_FOUND,
                    message: "User not found. Please register first.".to_owned(),
                },
            );
        },
        AdminLookup::Failed(why) => {
            return Err(
                Rejection {
                    status: INTERNAL_SERVER_ERROR,
                    message: "Database error: ".to_owned().concat(why.as_str()),
                },
            );
        },
    };
    match check_password(password, admin.password.as_str()) {
        PasswordCheck::UnreadableHash => {
            return Err(
                Rejection {
                    status: INTERNAL_SERVER_ERROR,
                    message: "Invalid password hash format".to_owned(),
                },
            );
        },
        PasswordCheck::Differs => {
            return Err(
                Rejection { status: UNAUTHORIZED, message: "Invalid credentials".to_owned() },
            );
        },
        PasswordCheck::Matches => {},
    }
    let access_token = match create_jwt_at(admin.username.as_str(), false, secret, now) {
        Ok(token) => token,
        Err(_) => {
            return Err(
                Rejection {
                    status: INTERNAL_SERVER_ERROR,
                    message: "Failed to generate access token".to_owned(),
                },
            );
        },
    };
    let refresh_token = if want_refresh {
        match create_jwt_at(admin.username.as_str(), true, secret, now) {
            Ok(token) => Some(token),
            Err(_) => {
                return Err(
                    Rejection {
                        status: INTERNAL_SERVER_ERROR,
                        message: "Failed to generate refresh token".to_owned(),
                    },
                );
            },
        }
    } else {
        None
    };
    Ok(
        LoginResponse {
            status: "success".to_owned(),
            access_token,
            refresh_token,
            user: UserInfo { username: admin.username },
        },
    )
}

/// The outcome of a login with a refresh token at time `now`.
pub open spec fn refresh_outcome(
    refresh_token: Seq<char>,
    secret: Seq<char>,
    now: int,
    reply: Result<RefreshResponse, Rejection>,
) -> bool {
    match verdict(signed_payload(refresh_token, secret), TokenClass::Refresh, now) {
        Err(TokenError::ExpiredOrMalformed) => reply matches Err(r) && r.says(
            UNAUTHORIZED,
            "Invalid or expired refresh token"@,
        ),
        Err(TokenError::WrongTokenClass) => reply matches Err(r) && r.says(
            UNAUTHORIZED,
            "Invalid token type. Must use refresh token."@,
        ),
        Ok(claims) => match issue_outcome(claims.sub, TokenClass::Access, secret, now) {
            Ok(access) => reply matches Ok(response) && response.status@ == "success"@
                && response.access_token@ == access,
            Err(_) => reply matches Err(r) && r.says(
                INTERNAL_SERVER_ERROR,
                "Failed to generate new access token"@,
            ),
        },
    }
}

/// Serves a login with a refresh token at time `now`: a token that verifies
/// as a refresh token buys a new access token for its subject. The refresh
/// token itself is never renewed. Any other token is 401.
pub fn handle_refresh(refresh_token: &str, secret: &str, now: u64) -> (reply: Result<
    RefreshResponse,
    Rejection,
>)
    requires
        now + REFRESH_TTL <= i64::MAX,
    ensures
        refresh_outcome(refresh_token@, secret@, now as int, reply),
{
    match verify(refresh_token, TokenClass::Refresh, secret, now) {
        Ok(claims) => match create_jwt_at(claims.sub.as_str(), false, secret, now) {
            Ok(access_token) => Ok(
                RefreshResponse { status: "success".to_owned(), access_token },
            ),
            Err(_) => Err(
                Rejection {
                    status: INTERNAL_SERVER_ERROR,
                    message: "Failed to generate new access token".to_owned(),
                },
            ),
        },
        Err(TokenError::WrongTokenClass) => Err(
            Rejection {
                status: UNAUTHORIZED,
                message: "Invalid token type. Must use refresh token.".to_owned(),
            },
        ),
        Err(TokenError::ExpiredOrMalformed) => Err(
            Rejection {
                status: UNAUTHORIZED,
                message: "Invalid or expired refresh token".to_owned(),
            },
        ),
    }
}

/// Guards a protected route at time `now`: only a token that verifies as an
/// access token passes, and its claims are handed on. Any other is 401.
pub fn validator(token: &str, secret: &str, now: u64) -> (passed: Result<Claims, Rejection>)
    ensures
        match verdict(signed_payload(token@, secret@), TokenClass::Access, now as int) {
            Ok(claims) => passed matches Ok(c) && c@ == claims,
            Err(TokenError::WrongTokenClass) => passed matches Err(r) && r.says(
                UNAUTHORIZED,
                "Invalid token type. Use access token for API requests."@,
            ),
            Err(TokenError::ExpiredOrMalformed) => passed matches Err(r) && r.says(
                UNAUTHORIZED,
                "Invalid or expired token"@,
            ),
        },
{
    match verify(token, TokenClass::Access, secret, now) {
        Ok(claims) => Ok(claims),
        Err(TokenError::WrongTokenClass) => Err(
            Rejection {
                status: UNAUTHORIZED,
                message: "Invalid token type. Use access token for API requests.".to_owned(),
            },
        ),
        Err(TokenError::ExpiredOrMalformed) => Err(
            Rejection { status: UNAUTHORIZED, message: "Invalid or expired token".to_owned() },
        ),
    }
}

} // verus!
