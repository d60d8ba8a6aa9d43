//! Bearer tokens: signed, expiring, and tagged with a class.
//!
//! Signing and signature checking are jsonwebtoken's (HS256). What a token
//! must carry, when it has lapsed and which class it may stand for are decided
//! here.

use crate::json::{Json, lift, value_tree};
use vstd::prelude::*;
use vstd::string::*;

verus! {

/// jsonwebtoken's error type.
#[verifier::external_type_specification]
#[verifier::external_body]
pub struct ExJwtError(jsonwebtoken::errors::Error);

/// Seconds for which an access token is valid: one day.
pub const ACCESS_TTL: u64 = 86_400;

/// Seconds for which a refresh token is valid: seven days.
pub const REFRESH_TTL: u64 = 604_800;

/// The two classes of token. An access token opens the API; a refresh token
/// only buys a new access token.
#[derive(Clone, Copy, Debug, PartialEq, Eq, Structural)]
pub enum TokenClass {
    Access,
    Refresh,
}

/// What a token carries.
#[derive(Debug)]
pub struct Claims {
    pub sub: String,
    pub exp: u64,
    pub iat: u64,
    pub token_type: String,
}

/// The mathematical content of `Claims`.
pub struct ClaimsView {
    pub sub: Seq<char>,
    pub exp: int,
    pub iat: int,
    pub token_type: Seq<char>,
}

impl View for Claims {
    type V = ClaimsView;

    open spec fn view(&self) -> ClaimsView {
        ClaimsView {
            sub: self.sub@,
            exp: self.exp as int,
            iat: self.iat as int,
            token_type: self.token_type@,
        }
    }
}

/// Why a token is refused.
#[derive(Clone, Copy, Debug, PartialEq, Eq, Structural)]
pub enum TokenError {
    /// The signature does not check, the claims are not all there, or the
    /// token has lapsed.
    ExpiredOrMalformed,
    /// The token is sound but of the other class.
    WrongTokenClass,
}

/// Why no token could be issued.
#[derive(Clone, Copy, Debug, PartialEq, Eq, Structural)]
pub enum IssueError {
    /// The signer gave no token.
    SigningFailed,
    /// The clock reads a time that no token can be stamped with.
    ClockOutOfRange,
}

impl TokenClass {
    /// The class that a `refresh` flag asks for.
    pub open spec fn of_flag(refresh: bool) -> TokenClass {
        if refresh {
            TokenClass::Refresh
        } else {
            TokenClass::Access
        }
    }

    /// The tag by which a token names its class.
    pub open spec fn tag(self) -> Seq<char> {
        match self {
            TokenClass::Access => "access"@,
            TokenClass::Refresh => "refresh"@,
        }
    }

    /// Seconds for which a token of this class is valid.
    pub open spec fn ttl(self) -> int {
        match self {
            TokenClass::Access => ACCESS_TTL as int,
            TokenClass::Refresh => REFRESH_TTL as int,
        }
    }

    pub fn from_flag(refresh: bool) -> (class: TokenClass)
        ensures
            class == Self::of_flag(refresh),
    {
        if refresh {
            TokenClass::Refresh
        } else {
            TokenClass::Access
        }
    }

    pub fn name(self) -> (tag: String)
        ensures
            tag@ == self.tag(),
    {
        match self {
            TokenClass::Access => "access".to_owned(),
            TokenClass::Refresh => "refresh".to_owned(),
        }
    }

    pub fn lifetime(self) -> (seconds: u64)
        ensures
            seconds == self.ttl(),
    {
        match self {
            TokenClass::Access => ACCESS_TTL,
            TokenClass::Refresh => REFRESH_TTL,
        }
    }
}

/// The two class tags differ.
pub proof fn lemma_tags_differ()
    ensures
        TokenClass::Access.tag() != TokenClass::Refresh.tag(),
{
    reveal_strlit("access");
    reveal_strlit("refresh");
    assert("access"@.len() != "refresh"@.len());
}

/// The claims of a token issued to `subject` at `now`.
pub open spec fn issued_claims(subject: Seq<char>, class: TokenClass, now: int) -> ClaimsView {
    ClaimsView { sub: subject, exp: now + class.ttl(), iat: now, token_type: class.tag() }
}

/// The claims that a decoded payload holds: a string `sub`, whole numbers
/// `exp` and `iat` that are not negative, and a string `token_type`. A payload
/// that lacks one of them holds no claims.
pub open spec fn claims_in(payload: Json) -> Option<ClaimsView> {
    match (
        payload.text_at("sub"@),
        payload.integer_at("exp"@),
        payload.integer_at("iat"@),
        payload.text_at("token_type"@),
    ) {
        (Some(sub), Some(exp), Some(iat), Some(token_type)) => if exp >= 0 && iat >= 0 {
            Some(ClaimsView { sub, exp, iat, token_type })
        } else {
            None
        },
        _ => None,
    }
}

/// What holding certain claims at time `now` entitles to, where a token of
/// class `expected` is asked for. Lapse is judged before class.
pub open spec fn claims_verdict(claims: ClaimsView, expected: TokenClass, now: int) -> Result<
    ClaimsView,
    TokenError,
> {
    if claims.exp < now {
        Err(TokenError::ExpiredOrMalformed)
    } else if claims.token_type != expected.tag() {
        Err(TokenError::WrongTokenClass)
    } else {
        Ok(claims)
    }
}

/// The outcome of verifying a token whose signature check gave `payload`.
pub open spec fn verdict(payload: Option<Json>, expected: TokenClass, now: int) -> Result<
    ClaimsView,
    TokenError,
> {
    match payload {
        None => Err(TokenError::ExpiredOrMalformed),
        Some(p) => match claims_in(p) {
            None => Err(TokenError::ExpiredOrMalformed),
            Some(claims) => claims_verdict(claims, expected, now),
        },
    }
}

/// The mathematical content of the outcome of a verification.
pub open spec fn outcome_view(outcome: Result<Claims, TokenError>) -> Result<
    ClaimsView,
    TokenError,
> {
    match outcome {
        Ok(claims) => Ok(claims@),
        Err(e) => Err(e),
    }
}

/// The token that jsonwebtoken signs for given claims under a secret, or
/// `None` where it signs none.
pub uninterp spec fn signed_token(claims: ClaimsView, secret: Seq<char>) -> Option<Seq<char>>;

/// The claims object that jsonwebtoken reads from a token whose HS256
/// signature checks under a secret, or `None` where it refuses the token.
pub uninterp spec fn signed_payload(token: Seq<char>, secret: Seq<char>) -> Option<Json>;

/// `jsonwebtoken::encode` with the default header (HS256) over a claims object
/// with the members `sub`, `exp`, `iat` and `token_type`, keyed by
/// `EncodingKey::from_secret`. The token depends on the claims and the secret
/// alone. Decoding it under the same secret gives the same claims back, as
/// long as both times fit a signed 64-bit number.
#[verifier::external_body]
fn sign_claims(claims: &Claims, secret: &str) -> (token: Result<
    String,
    jsonwebtoken::errors::Error,
>)
    ensures
        match token {
            Ok(t) => {
                &&& signed_token(claims@, secret@) == Some(t@)
                &&& claims.exp <= i64::MAX && claims.iat <= i64::MAX ==> (signed_payload(
                    t@,
                    secret@,
                ) matches Some(p) && claims_in(p) == Some(claims@))
            },
            Err(_) => signed_token(claims@, secret@) is None,
        },
{
    let mut object = serde_json::Map::new();
    object.insert("sub".to_string(), serde_json::Value::from(claims.sub.as_str()));
    object.insert("exp".to_string(), serde_json::Value::from(claims.exp));
    object.insert("iat".to_string(), serde_json::Value::from(claims.iat));
    object.insert("token_type".to_string(), serde_json::Value::from(claims.token_type.as_str()));
    let key = jsonwebtoken::EncodingKey::from_secret(secret.as_bytes());
    jsonwebtoken::encode(&jsonwebtoken::Header::default(), &serde_json::Value::Object(object), &key)
}

/// `jsonwebtoken::decode` at `serde_json::Value`, keyed by
/// `DecodingKey::from_secret`, with `Validation::new(HS256)` and its own
/// expiry check switched off: the claims object of a token whose signature
/// checks. The result depends on the token and the secret alone.
#[verifier::external_body]
fn decode_signed(token: &str, secret: &str) -> (payload: Result<
    serde_json::Value,
    jsonwebtoken::errors::Error,
>)
    ensures
        match payload {
            Ok(claims) => signed_payload(token@, secret@) == Some(value_tree(claims)),
            Err(_) => signed_payload(token@, secret@) is None,
        },
{
    let mut checks = jsonwebtoken::Validation::new(jsonwebtoken::Algorithm::HS256);
    checks.validate_exp = false;
    let key = jsonwebtoken::DecodingKey::from_secret(secret.as_bytes());
    jsonwebtoken::decode::<serde_json::Value>(token, &key, &checks).map(|data| data.claims)
}

/// `chrono::Utc::now().timestamp()`: the clock, in seconds since the start of
/// 1970. Nothing is known of the time it reads.
#[verifier::external_body]
fn unix_now() -> (seconds: i64) {
    chrono::Utc::now().timestamp()
}

/// The time that the clock reads, in seconds since the start of 1970, or
/// `None` where it reads a time before that.
pub fn clock_seconds() -> (now: Option<u64>)
    ensures
        exists|reading: i64| now == #[trigger] seconds_since_epoch(reading as int),
{
    let reading: i64 = unix_now();
    let now = seconds_of(reading);
    now
}

/// Reads the claims out of a decoded payload.
pub fn read_claims(payload: &Json) -> (claims: Option<Claims>)
    ensures
        match claims {
            Some(c) => claims_in(*payload) == Some(c@),
            None => claims_in(*payload) is None,
        },
{
    let sub = match payload.get_text("sub") {
        Some(s) => s,
        None => { return None; },
    };
    let exp = match payload.get_integer("exp") {
        Some(n) => n,
        None => { return None; },
    };
    let iat = match payload.get_integer("iat") {
        Some(n) => n,
        None => { return None; },
    };
    let token_type = match payload.get_text("token_type") {
        Some(s) => s,
        None => { return None; },
    };
    if exp < 0 || iat < 0 {
        return None;
    }
    Some(Claims { sub: sub.clone(), exp: exp as u64, iat: iat as u64, token_type: token_type.clone() })
}

/// Judges the claims of a token at time `now`: a lapsed token is refused as
/// `ExpiredOrMalformed`, one of the other class as `WrongTokenClass`.
pub fn judge_claims(claims: Claims, expected: TokenClass, now: u64) -> (outcome: Result<
    Claims,
    TokenError,
>)
    ensures
        outcome_view(outcome) == claims_verdict(claims@, expected, now as int),
        outcome matches Ok(c) ==> c == claims,
{
    if claims.exp < now {
        return Err(TokenError::ExpiredOrMalformed);
    }
    let tag = expected.name();
    if claims.token_type != tag {
        return Err(TokenError::WrongTokenClass);
    }
    Ok(claims)
}

/// Judges what a signature check gave: no payload, or a payload without
/// claims, is `ExpiredOrMalformed`; otherwise the claims are judged.
pub fn judge_payload(payload: Option<Json>, expected: TokenClass, now: u64) -> (outcome: Result<
    Claims,
    TokenError,
>)
    ensures
        outcome_view(outcome) == verdict(payload, expected, now as int),
{
    match payload {
        None => Err(TokenError::ExpiredOrMalformed),
        Some(p) => match read_claims(&p) {
            None => Err(TokenError::ExpiredOrMalformed),
            Some(claims) => judge_claims(claims, expected, now),
        },
    }
}

/// Verifies a token at time `now`: its signature must check under `secret`,
/// it must not have lapsed, and it must be of class `expected`.
pub fn verify(token: &str, expected: TokenClass, secret: &str, now: u64) -> (outcome: Result<
    Claims,
    TokenError,
>)
    ensures
        outcome_view(outcome) == verdict(signed_payload(token@, secret@), expected, now as int),
{
    let payload = match decode_signed(token, secret) {
        Ok(claims) => Some(lift(&claims)),
        Err(_) => None,
    };
    judge_payload(payload, expected, now)
}

/// A token issued at `issued_at`, judged at `at`: up to and including its
/// expiry it is accepted for its own class, with the subject it was issued to,
/// and refused as `WrongTokenClass` for the other class; after its expiry it is
/// refused as `ExpiredOrMalformed` whatever class is asked for.
pub proof fn law_issued_token_verdict(
    payload: Json,
    subject: Seq<char>,
    class: TokenClass,
    issued_at: int,
    expected: TokenClass,
    at: int,
)
    requires
        claims_in(payload) == Some(issued_claims(subject, class, issued_at)),
    ensures
        at <= issued_at + class.ttl() && expected == class ==> verdict(Some(payload), expected, at)
            == Ok::<ClaimsView, TokenError>(issued_claims(subject, class, issued_at)),
        at <= issued_at + class.ttl() && expected != class ==> verdict(Some(payload), expected, at)
            == Err::<ClaimsView, TokenError>(TokenError::WrongTokenClass),
        at > issued_at + class.ttl() ==> verdict(Some(payload), expected, at) == Err::<
            ClaimsView,
            TokenError,
        >(TokenError::ExpiredOrMalformed),
{
    lemma_tags_differ();
}

/// The outcome of issuing a token to `subject` at `now` under `secret`.
pub open spec fn issue_outcome(subject: Seq<char>, class: TokenClass, secret: Seq<char>, now: int)
    -> Result<Seq<char>, IssueError> {
    match signed_token(issued_claims(subject, class, now), secret) {
        Some(token) => Ok(token),
        None => Err(IssueError::SigningFailed),
    }
}

/// Issues a token to `steam_id` at time `now`: a refresh token, valid for
/// seven days, where `refresh` is set, else an access token, valid for one day.
///
/// A token that comes out verifies under the same secret for its own class,
/// with the subject it was issued to, at every time up to and including its
/// expiry; for the other class it is refused as `WrongTokenClass`; after its
/// expiry it is refused as `ExpiredOrMalformed`.
pub fn create_jwt_at(steam_id: &str, refresh: bool, secret: &str, now: u64) -> (token: Result<
    String,
    IssueError,
>)
    requires
        now + REFRESH_TTL <= i64::MAX,
    ensures
        match token {
            Ok(t) => issue_outcome(steam_id@, TokenClass::of_flag(refresh), secret@, now as int)
                == Ok::<Seq<char>, IssueError>(t@),
            Err(e) => issue_outcome(steam_id@, TokenClass::of_flag(refresh), secret@, now as int)
                == Err::<Seq<char>, IssueError>(e),
        },
        token matches Ok(t) ==> forall|expected: TokenClass, at: int|
            #![trigger verdict(signed_payload(t@, secret@), expected, at)]
            {
                let class = TokenClass::of_flag(refresh);
                let outcome = verdict(signed_payload(t@, secret@), expected, at);
                &&& at <= now + class.ttl() && expected == class ==> outcome == Ok::<
                    ClaimsView,
                    TokenError,
                >(issued_claims(steam_id@, class, now as int))
                &&& at <= now + class.ttl() && expected != class ==> outcome == Err::<
                    ClaimsView,
                    TokenError,
                >(TokenError::WrongTokenClass)
                &&& at > now + class.ttl() ==> outcome == Err::<ClaimsView, TokenError>(
                    TokenError::ExpiredOrMalformed,
                )
            },
{
    let class = TokenClass::from_flag(refresh);
    let claims = Claims {
        sub: steam_id.to_owned(),
        exp: now + class.lifetime(),
        iat: now,
        token_type: class.name(),
    };
    assert(claims@ == issued_claims(steam_id@, class, now as int));
    match sign_claims(&claims, secret) {
        Ok(t) => {
            proof {
                let payload = signed_payload(t@, secret@)->Some_0;
                assert forall|expected: TokenClass, at: int|
                    #![trigger verdict(signed_payload(t@, secret@), expected, at)]
                    {
                        let outcome = verdict(signed_payload(t@, secret@), expected, at);
                        &&& at <= now + class.ttl() && expected == class ==> outcome == Ok::<
                            ClaimsView,
                            TokenError,
                        >(issued_claims(steam_id@, class, now as int))
                        &&& at <= now + class.ttl() && expected != class ==> outcome == Err::<
                            ClaimsView,
                            TokenError,
                        >(TokenError::WrongTokenClass)
                        &&& at > now + class.ttl() ==> outcome == Err::<ClaimsView, TokenError>(
                            TokenError::ExpiredOrMalformed,
                        )
                    } by {
                    law_issued_token_verdict(payload, steam_id@, class, now as int, expected, at);
                }
            }
            Ok(t)
        },
        Err(_) => Err(IssueError::SigningFailed),
    }
}

/// A token was issued to `subject` at some time on the clock.
pub open spec fn issued_at_some_time(
    token: Seq<char>,
    subject: Seq<char>,
    class: TokenClass,
    secret: Seq<char>,
) -> bool {
    exists|now: int|
        0 <= now && now + REFRESH_TTL <= i64::MAX && #[trigger] issue_outcome(
            subject,
            class,
            secret,
            now,
        ) == Ok::<Seq<char>, IssueError>(token)
}

/// Issues a token to `steam_id`, stamped with the time that the clock reads:
/// what comes out is what `create_jwt_stamped` makes of some clock reading.
/// (A reading before 1970, or too late for an expiry, is `ClockOutOfRange`.)
pub fn create_jwt(steam_id: &str, refresh: bool, secret: &str) -> (token: Result<
    String,
    IssueError,
>)
    ensures
        exists|reading: i64| #[trigger]
            stamped(
                token,
                steam_id@,
                TokenClass::of_flag(refresh),
                secret@,
                reading as int,
            ),
        token matches Ok(t) ==> issued_at_some_time(
            t@,
            steam_id@,
            TokenClass::of_flag(refresh),
            secret@,
        ),
{
    let reading: i64 = unix_now();
    create_jwt_stamped(steam_id, refresh, secret, reading)
}

/// Verifies a token at the time that the clock reads: the outcome is the
/// verdict at some time. A clock that reads a time before 1970 refuses every
/// token as `ExpiredOrMalformed`, which is its verdict once it has lapsed.
pub fn verify_now(token: &str, expected: TokenClass, secret: &str) -> (outcome: Result<
    Claims,
    TokenError,
>)
    ensures
        exists|now: int| #[trigger]
            verdict(signed_payload(token@, secret@), expected, now) == outcome_view(outcome),
{
    let now: i64 = unix_now();
    if now < 0 {
        proof {
            let payload = signed_payload(token@, secret@);
            let late: int = match payload {
                Some(p) => match claims_in(p) {
                    Some(claims) => claims.exp + 1,
                    None => 0,
                },
                None => 0,
            };
            assert(verdict(payload, expected, late) == Err::<ClaimsView, TokenError>(
                TokenError::ExpiredOrMalformed,
            ));
        }
        return Err(TokenError::ExpiredOrMalformed);
    }
    verify(token, expected, secret, now as u64)
}

/// The seconds since the start of 1970 that a clock reading stands for: none
/// where the reading lies before that.
pub open spec fn seconds_since_epoch(reading: int) -> Option<u64> {
    if 0 <= reading <= u64::MAX {
        Some(reading as u64)
    } else {
        None
    }
}

/// The seconds since the start of 1970 that a clock reading stands for, or
/// `None` where the reading lies before that.
pub fn seconds_of(reading: i64) -> (now: Option<u64>)
    ensures
        now == seconds_since_epoch(reading as int),
{
    if reading < 0 {
        None
    } else {
        Some(reading as u64)
    }
}

/// The outcome of issuing a token to `subject` under `secret` when the clock
/// reads `reading`: `ClockOutOfRange` where the reading lies before 1970 or
/// so late that the latest expiry does not fit a signed 64-bit number, else
/// the outcome of issuing at that time.
pub open spec fn stamped_outcome(
    subject: Seq<char>,
    class: TokenClass,
    secret: Seq<char>,
    reading: int,
) -> Result<Seq<char>, IssueError> {
    if reading < 0 || reading + REFRESH_TTL > i64::MAX {
        Err(IssueError::ClockOutOfRange)
    } else {
        issue_outcome(subject, class, secret, reading)
    }
}

/// The mathematical content of the outcome of issuing a token.
pub open spec fn issue_view(token: Result<String, IssueError>) -> Result<Seq<char>, IssueError> {
    match token {
        Ok(t) => Ok(t@),
        Err(e) => Err(e),
    }
}

/// A token issued to `subject` at `now` is honoured as such: up to and
/// including its expiry it verifies for its own class, with that subject, and
/// is refused as `WrongTokenClass` for the other class; after its expiry it
/// is refused as `ExpiredOrMalformed` whatever class is asked for.
pub open spec fn honoured(
    token: Seq<char>,
    subject: Seq<char>,
    class: TokenClass,
    secret: Seq<char>,
    now: int,
) -> bool {
    forall|expected: TokenClass, at: int|
        #![trigger verdict(signed_payload(token, secret), expected, at)]
        {
            let outcome = verdict(signed_payload(token, secret), expected, at);
            &&& at <= now + class.ttl() && expected == class ==> outcome == Ok::<
                ClaimsView,
                TokenError,
            >(issued_claims(subject, class, now))
            &&& at <= now + class.ttl() && expected != class ==> outcome == Err::<
                ClaimsView,
                TokenError,
            >(TokenError::WrongTokenClass)
            &&& at > now + class.ttl() ==> outcome == Err::<ClaimsView, TokenError>(
                TokenError::ExpiredOrMalformed,
            )
        }
}

/// What issuing a token amounts to when the clock reads `reading`: the
/// outcome is the one that belongs to that reading, and a token that comes
/// out is honoured as one issued at that time.
pub open spec fn stamped(
    token: Result<String, IssueError>,
    subject: Seq<char>,
    class: TokenClass,
    secret: Seq<char>,
    reading: int,
) -> bool {
    &&& issue_view(token) == stamped_outcome(subject, class, secret, reading)
    &&& token matches Ok(t) ==> honoured(t@, subject, class, secret, reading)
}

/// Issues a token to `steam_id`, stamped with a clock reading. A reading
/// before 1970, or one so late that no expiry can be stamped, yields
/// `ClockOutOfRange`; any other is the time at which the token is issued.
pub fn create_jwt_stamped(steam_id: &str, refresh: bool, secret: &str, reading: i64) -> (token:
    Result<String, IssueError>)
    ensures
        stamped(token, steam_id@, TokenClass::of_flag(refresh), secret@, reading as int),
{
    if reading < 0 || reading > i64::MAX - 604_800 {
        return Err(IssueError::ClockOutOfRange);
    }
    create_jwt_at(steam_id, refresh, secret, reading as u64)
}

} // verus!
