use backend::auth::{check_claims, extract_token, AuthSettings};
use backend::error::ApiError;

fn settings() -> AuthSettings {
    AuthSettings::from_config(None, None, Some("test-secret".to_string()), Some(5))
}

#[test]
fn defaults_fill_missing_settings() {
    let s = AuthSettings::from_config(None, None, None, None);
    assert_eq!(s.username, "admin");
    assert_eq!(s.password, "studyguardian");
    assert_eq!(s.secret, "change-me-please");
    assert_eq!(s.session_minutes, 5);
}

#[test]
fn session_minutes_floor_is_one() {
    let s = AuthSettings::from_config(None, None, None, Some(0));
    assert_eq!(s.session_minutes, 1);
    let s = AuthSettings::from_config(None, None, None, Some(-30));
    assert_eq!(s.session_minutes, 1);
    let s = AuthSettings::from_config(Some("u".to_string()), Some("p".to_string()), None, Some(12));
    assert_eq!(s.session_minutes, 12);
    assert_eq!(s.username, "u");
    assert_eq!(s.password, "p");
}

#[test]
fn login_issues_token_with_expiry() {
    let s = settings();
    let now = 1_700_000_000;
    let resp = s.login_at("admin", "studyguardian", now).unwrap();
    assert_eq!(resp.username, "admin");
    assert_eq!(resp.expires_at, now + 5 * 60);
    assert_eq!(resp.token.split('.').count(), 3);
}

#[test]
fn login_rejects_bad_credentials() {
    let s = settings();
    let r = s.login_at("admin", "wrong", 1_700_000_000);
    assert!(matches!(r, Err(ApiError::Unauthorized)));
    let r = s.login_at("root", "studyguardian", 1_700_000_000);
    assert!(matches!(r, Err(ApiError::Unauthorized)));
    let r = s.login_at("", "", 1_700_000_000);
    assert!(matches!(r, Err(ApiError::Unauthorized)));
}

#[test]
fn login_expiry_overflow_is_internal() {
    let s = AuthSettings::from_config(None, None, None, Some(i64::MAX));
    let r = s.login_at("admin", "studyguardian", 1_700_000_000);
    assert!(matches!(r, Err(ApiError::Internal(_))));
}

#[test]
fn issued_token_accepted_then_expires() {
    let s = settings();
    let now = 1_700_000_000;
    let resp = s.login_at("admin", "studyguardian", now).unwrap();
    let claims = s.verify_at(&resp.token, now).unwrap();
    assert_eq!(claims.sub, "admin");
    assert_eq!(claims.iat, now);
    assert_eq!(claims.exp, now + 300);
    assert!(s.verify_at(&resp.token, now + 300).is_ok());
    let late = s.verify_at(&resp.token, now + 301);
    assert!(matches!(late, Err(ApiError::Unauthorized)));
}

#[test]
fn expired_token_is_unauthorized_with_message() {
    let s = settings();
    let now = 1_700_000_000;
    let resp = s.login_at("admin", "studyguardian", now).unwrap();
    let header = format!("Bearer {}", resp.token);
    let err = s.authorize_at(Some(&header), None, now + 3600).unwrap_err();
    assert_eq!(err.status_code(), 401);
    assert_eq!(err.message(), "unauthorized");
}

#[test]
fn login_then_verify_with_real_clock() {
    let s = settings();
    let resp = s.login("admin", "studyguardian").unwrap();
    let claims = s.verify(&resp.token).unwrap();
    assert_eq!(claims.sub, "admin");
    assert_eq!(claims.exp, resp.expires_at);
    let header = format!("Bearer {}", resp.token);
    assert!(s.authorize(Some(&header), None).is_ok());
    assert!(matches!(s.authorize(None, None), Err(ApiError::Unauthorized)));
}

#[test]
fn token_signed_with_other_secret_is_rejected() {
    let other = AuthSettings::from_config(None, None, Some("another".to_string()), None);
    let now = 1_700_000_000;
    let resp = other.login_at("admin", "studyguardian", now).unwrap();
    let r = settings().verify_at(&resp.token, now);
    assert!(matches!(r, Err(ApiError::Unauthorized)));
}

#[test]
fn malformed_token_is_rejected() {
    let s = settings();
    assert!(matches!(s.verify_at("not-a-token", 0), Err(ApiError::Unauthorized)));
    assert!(matches!(s.verify_at("", 0), Err(ApiError::Unauthorized)));
}

#[test]
fn tampered_token_is_rejected() {
    let s = settings();
    let now = 1_700_000_000;
    let token = s.login_at("admin", "studyguardian", now).unwrap().token;
    let mut tampered = token.clone();
    let last = tampered.pop().unwrap();
    tampered.push(if last == 'A' { 'B' } else { 'A' });
    assert!(matches!(s.verify_at(&tampered, now), Err(ApiError::Unauthorized)));
}

#[test]
fn check_claims_requires_all_claims_and_live_expiry() {
    let full = Some((Some("admin".to_string()), Some(10), Some(20)));
    let c = check_claims(full.clone(), 20).unwrap();
    assert_eq!((c.sub.as_str(), c.iat, c.exp), ("admin", 10, 20));
    assert!(matches!(check_claims(full, 21), Err(ApiError::Unauthorized)));
    assert!(check_claims(Some((None, Some(10), Some(20))), 15).is_err());
    assert!(check_claims(Some((Some("a".to_string()), None, Some(20))), 15).is_err());
    assert!(check_claims(Some((Some("a".to_string()), Some(10), None)), 15).is_err());
    assert!(check_claims(None, 15).is_err());
}

#[test]
fn bearer_header_token_is_trimmed() {
    assert_eq!(extract_token(Some("Bearer  abc.def "), None), Some("abc.def".to_string()));
}

#[test]
fn header_takes_precedence_over_query() {
    assert_eq!(
        extract_token(Some("Bearer hdr"), Some("token=qry")),
        Some("hdr".to_string())
    );
}

#[test]
fn query_token_used_without_usable_header() {
    assert_eq!(extract_token(Some("Basic xyz"), Some("a=1&token=qry")), Some("qry".to_string()));
    assert_eq!(extract_token(Some("Bearer   "), Some("token=qry")), Some("qry".to_string()));
    assert_eq!(extract_token(None, Some("token=a=b")), Some("a=b".to_string()));
}

#[test]
fn query_without_token_gives_none() {
    assert_eq!(extract_token(None, Some("token=&x=1")), None);
    assert_eq!(extract_token(None, Some("tokens=abc&token")), None);
    assert_eq!(extract_token(None, Some("")), None);
    assert_eq!(extract_token(None, None), None);
    assert_eq!(extract_token(Some("bearer abc"), None), None);
}

#[test]
fn first_query_token_wins() {
    assert_eq!(extract_token(None, Some("token=&token=one&token=two")), Some("one".to_string()));
}

#[test]
fn login_token_authorizes_listing() {
    let s = settings();
    let now = 1_700_000_000;
    let resp = s.login_at("admin", "studyguardian", now).unwrap();
    let header = format!("Bearer {}", resp.token);
    let claims = s.authorize_at(Some(&header), None, now + 1).unwrap();
    assert_eq!(claims.sub, "admin");
    let query = format!("limit=5&token={}", resp.token);
    assert!(s.authorize_at(None, Some(&query), now + 1).is_ok());
    let plan = backend::query::FaceCaptureQuery::from_params(Some(5), None);
    assert_eq!(plan.limit, 5);
    assert!(plan.sql().ends_with("ORDER BY timestamp DESC LIMIT $1"));
}

#[test]
fn default_settings_login_succeeds() {
    let s = AuthSettings::from_config(None, None, None, None);
    let now = 1_700_000_000;
    let resp = s.login_at("admin", "studyguardian", now).unwrap();
    assert!(!resp.token.is_empty());
    assert_eq!(resp.username, "admin");
    assert_eq!(resp.expires_at, now + 300);
    let claims = s.verify_at(&resp.token, now).unwrap();
    assert_eq!(claims.iat, now);
    assert_eq!(claims.exp, claims.iat + 300);
}

#[test]
fn non_positive_session_minutes_give_one_minute() {
    for minutes in [0, -3] {
        let mut s = AuthSettings::from_config(None, None, None, None);
        s.session_minutes = minutes;
        let now = 1_700_000_000;
        let resp = s.login_at("admin", "studyguardian", now).unwrap();
        assert_eq!(resp.expires_at, now + 60);
        assert!(s.verify_at(&resp.token, now).is_ok());
        assert!(s.verify_at(&resp.token, now + 61).is_err());
    }
}
