use recalc::error::ErrorKind;
use recalc::token::{
    create_new_auth_token, extract_token_from_header, issue_token, select_token, session_subject,
    verify_token, TOKEN_LIFETIME,
};

const SECRET: &[u8] = b"test-signing-secret";

#[test]
fn token_round_trip() {
    let now = 1_700_000_000;
    let token = issue_token(SECRET, 42, now).unwrap();
    assert_eq!(verify_token(SECRET, &token, now), Ok(42));
    assert_eq!(verify_token(SECRET, &token, now + TOKEN_LIFETIME - 1), Ok(42));
}

#[test]
fn token_expires() {
    let now = 1_700_000_000;
    let token = issue_token(SECRET, 42, now).unwrap();
    assert_eq!(verify_token(SECRET, &token, now + TOKEN_LIFETIME), Err(ErrorKind::Unauthenticated));
    assert_eq!(verify_token(SECRET, &token, now + 2 * TOKEN_LIFETIME), Err(ErrorKind::Unauthenticated));
}

#[test]
fn token_refused_under_other_secret_or_garbled() {
    let token = issue_token(SECRET, 7, 1_000).unwrap();
    assert_eq!(verify_token(b"another-secret", &token, 1_000), Err(ErrorKind::Unauthenticated));
    assert_eq!(verify_token(SECRET, "not.a.token", 1_000), Err(ErrorKind::Unauthenticated));
    assert_eq!(verify_token(SECRET, "", 1_000), Err(ErrorKind::Unauthenticated));
    let mut tampered = token.clone();
    tampered.push('x');
    assert_eq!(verify_token(SECRET, &tampered, 1_000), Err(ErrorKind::Unauthenticated));
}

#[test]
fn token_is_deterministic_and_distinct() {
    let a = issue_token(SECRET, 1, 500).unwrap();
    assert_eq!(a, issue_token(SECRET, 1, 500).unwrap());
    assert_ne!(a, issue_token(SECRET, 2, 500).unwrap());
    assert_eq!(a.split('.').count(), 3);
}

#[test]
fn token_with_negative_subject() {
    let token = issue_token(SECRET, -3, 10).unwrap();
    assert_eq!(verify_token(SECRET, &token, 10), Ok(-3));
}

#[test]
fn issue_token_refuses_overflowing_expiry() {
    assert_eq!(issue_token(SECRET, 1, i64::MAX - TOKEN_LIFETIME + 1), Err(ErrorKind::Internal));
    assert!(issue_token(SECRET, 1, i64::MAX - TOKEN_LIFETIME).is_ok());
}

#[test]
fn new_auth_token_verifies_now() {
    let token = create_new_auth_token("configured-secret".to_string(), 9).unwrap();
    assert_eq!(verify_token(b"configured-secret", &token, 0), Ok(9));
}

#[test]
fn bearer_header_extraction() {
    assert_eq!(extract_token_from_header(Some("Bearer abc.def")), Some("abc.def".to_string()));
    assert_eq!(extract_token_from_header(Some("Bearer ")), Some(String::new()));
    assert_eq!(extract_token_from_header(Some("Basic abc")), None);
    assert_eq!(extract_token_from_header(Some("bearer abc")), None);
    assert_eq!(extract_token_from_header(Some("Bearer")), None);
    assert_eq!(extract_token_from_header(None), None);
}

#[test]
fn cookie_comes_before_header() {
    assert_eq!(select_token(Some("from-cookie"), Some("Bearer from-header")), Some("from-cookie".to_string()));
    assert_eq!(select_token(None, Some("Bearer from-header")), Some("from-header".to_string()));
    assert_eq!(select_token(None, Some("Token x")), None);
    assert_eq!(select_token(None, None), None);
}

#[test]
fn session_subject_from_request() {
    let token = issue_token(SECRET, 5, 100).unwrap();
    let header = format!("Bearer {}", token);
    assert_eq!(session_subject(SECRET, None, Some(&header), 200), Ok(5));
    assert_eq!(session_subject(SECRET, Some(&token), None, 200), Ok(5));
    assert_eq!(session_subject(SECRET, None, None, 200), Err(ErrorKind::Unauthenticated));
    assert_eq!(session_subject(SECRET, Some("junk"), Some(&header), 200), Err(ErrorKind::Unauthenticated));
    assert_eq!(session_subject(SECRET, None, Some(&header), 100 + TOKEN_LIFETIME), Err(ErrorKind::Unauthenticated));
}
