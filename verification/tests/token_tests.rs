use profile_mirror::token::{
    create_jwt_at, create_jwt_stamped, seconds_of, verify, IssueError, TokenClass, TokenError,
    ACCESS_TTL, REFRESH_TTL,
};

#[test]
fn access_token_verifies_as_access() {
    let token = create_jwt_at("76561197960287930", false, "secret", 1_700_000_000).unwrap();
    let claims = verify(&token, TokenClass::Access, "secret", 1_700_000_000).unwrap();
    assert_eq!(claims.sub, "76561197960287930");
    assert_eq!(claims.token_type, "access");
    assert_eq!(claims.iat, 1_700_000_000);
    assert_eq!(claims.exp, 1_700_000_000 + ACCESS_TTL);
}

#[test]
fn access_token_is_refused_as_refresh() {
    let token = create_jwt_at("alice", false, "secret", 1_700_000_000).unwrap();
    assert_eq!(
        verify(&token, TokenClass::Refresh, "secret", 1_700_000_000).unwrap_err(),
        TokenError::WrongTokenClass
    );
}

#[test]
fn token_lapses_after_its_expiry() {
    let now = 1_700_000_000;
    let token = create_jwt_at("alice", true, "secret", now).unwrap();
    assert!(verify(&token, TokenClass::Refresh, "secret", now + REFRESH_TTL - 1).is_ok());
    assert!(verify(&token, TokenClass::Refresh, "secret", now + REFRESH_TTL).is_ok());
    assert_eq!(
        verify(&token, TokenClass::Refresh, "secret", now + REFRESH_TTL + 1).unwrap_err(),
        TokenError::ExpiredOrMalformed
    );
}

#[test]
fn token_under_another_secret_is_refused() {
    let token = create_jwt_at("alice", false, "secret", 1_700_000_000).unwrap();
    assert_eq!(
        verify(&token, TokenClass::Access, "other", 1_700_000_000).unwrap_err(),
        TokenError::ExpiredOrMalformed
    );
    assert_eq!(
        verify("not.a.token", TokenClass::Access, "secret", 1_700_000_000).unwrap_err(),
        TokenError::ExpiredOrMalformed
    );
}

#[test]
fn a_token_that_was_tampered_with_is_refused() {
    let token = create_jwt_at("alice", false, "secret", 1_700_000_000).unwrap();
    let mut parts: Vec<String> = token.split('.').map(|p| p.to_string()).collect();
    assert_eq!(parts.len(), 3);
    // The payload of a token issued to another subject, under the signature of this one.
    let other = create_jwt_at("mallory", false, "secret", 1_700_000_000).unwrap();
    parts[1] = other.split('.').nth(1).unwrap().to_string();
    let forged = parts.join(".");
    assert_eq!(
        verify(&forged, TokenClass::Access, "secret", 1_700_000_000).unwrap_err(),
        TokenError::ExpiredOrMalformed
    );
}

#[test]
fn refresh_token_lives_seven_days_and_access_token_one() {
    assert_eq!(ACCESS_TTL, 24 * 60 * 60);
    assert_eq!(REFRESH_TTL, 7 * 24 * 60 * 60);
    let now = 1_700_000_000;
    let access = create_jwt_at("alice", false, "secret", now).unwrap();
    let refresh = create_jwt_at("alice", true, "secret", now).unwrap();
    assert_ne!(access, refresh);
    let claims = verify(&refresh, TokenClass::Refresh, "secret", now).unwrap();
    assert_eq!(claims.exp - claims.iat, REFRESH_TTL);
    assert_eq!(claims.token_type, "refresh");
    assert!(verify(&access, TokenClass::Access, "secret", now + ACCESS_TTL).is_ok());
    assert_eq!(
        verify(&access, TokenClass::Access, "secret", now + ACCESS_TTL + 1).unwrap_err(),
        TokenError::ExpiredOrMalformed
    );
    assert_eq!(
        verify(&access, TokenClass::Refresh, "secret", now + ACCESS_TTL + 1).unwrap_err(),
        TokenError::ExpiredOrMalformed
    );
}

#[test]
fn a_clock_reading_before_1970_stands_for_no_time() {
    assert_eq!(seconds_of(-1), None);
    assert_eq!(seconds_of(i64::MIN), None);
    assert_eq!(seconds_of(0), Some(0));
    assert_eq!(seconds_of(1_700_000_000), Some(1_700_000_000));
    assert_eq!(seconds_of(i64::MAX), Some(i64::MAX as u64));
}

#[test]
fn a_token_is_stamped_with_the_clock_reading() {
    assert_eq!(
        create_jwt_stamped("alice", false, "secret", -1).unwrap_err(),
        IssueError::ClockOutOfRange
    );
    assert_eq!(
        create_jwt_stamped("alice", false, "secret", i64::MAX - 604_799).unwrap_err(),
        IssueError::ClockOutOfRange
    );
    let latest = i64::MAX - 604_800;
    let token = create_jwt_stamped("alice", true, "secret", latest).unwrap();
    let claims = verify(&token, TokenClass::Refresh, "secret", latest as u64).unwrap();
    assert_eq!(claims.iat, latest as u64);
    assert_eq!(claims.exp, i64::MAX as u64);
    let token = create_jwt_stamped("alice", false, "secret", 1_700_000_000).unwrap();
    assert_eq!(token, create_jwt_at("alice", false, "secret", 1_700_000_000).unwrap());
    let claims = verify(&token, TokenClass::Access, "secret", 1_700_000_000 + ACCESS_TTL).unwrap();
    assert_eq!(claims.sub, "alice");
    assert_eq!(claims.iat, 1_700_000_000);
    assert_eq!(
        verify(&token, TokenClass::Access, "secret", 1_700_000_001 + ACCESS_TTL).unwrap_err(),
        TokenError::ExpiredOrMalformed
    );
}
