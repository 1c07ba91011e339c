use task_backend::clock::{unix_now, CLOCK_LIMIT};
use task_backend::jwt::{
    accept_payload, create_access_token, create_refresh_token, issue, issue_at, verify_token,
    verify_token_at, Claims, ConfigError, DecodedPayload, TokenConfig, TokenError, TokenKind,
    ACCESS_TOKEN_LIFETIME, REFRESH_TOKEN_LIFETIME,
};

fn config() -> TokenConfig {
    TokenConfig::new("access-secret".to_string(), "refresh-secret".to_string())
}

fn signed(payload: serde_json::Map<String, serde_json::Value>, secret: &str) -> String {
    jsonwebtoken::encode(
        &jsonwebtoken::Header::default(),
        &payload,
        &jsonwebtoken::EncodingKey::from_secret(secret.as_bytes()),
    )
    .unwrap()
}

fn payload(sub: Option<&str>, exp: Option<u64>, kind: Option<&str>) -> serde_json::Map<String, serde_json::Value> {
    let mut map = serde_json::Map::new();
    if let Some(sub) = sub {
        map.insert("sub".to_string(), serde_json::Value::from(sub));
    }
    if let Some(exp) = exp {
        map.insert("exp".to_string(), serde_json::Value::from(exp));
    }
    if let Some(kind) = kind {
        map.insert("token_type".to_string(), serde_json::Value::from(kind));
    }
    map
}

#[test]
fn lifetimes_are_fifteen_minutes_and_seven_days() {
    assert_eq!(ACCESS_TOKEN_LIFETIME, 15 * 60);
    assert_eq!(REFRESH_TOKEN_LIFETIME, 7 * 24 * 60 * 60);
    assert_eq!(TokenKind::Access.lifetime_secs(), 900);
    assert_eq!(TokenKind::Refresh.lifetime_secs(), 604_800);
}

#[test]
fn kinds_have_their_labels() {
    assert_eq!(TokenKind::Access.as_str(), "access");
    assert_eq!(TokenKind::Refresh.as_str(), "refresh");
}

#[test]
fn issued_claims_expire_one_lifetime_later() {
    let access = Claims::issued("u1", TokenKind::Access, 1_000);
    assert_eq!(
        access,
        Claims { sub: "u1".to_string(), exp: 1_900, token_type: "access".to_string() }
    );
    let refresh = Claims::issued("u1", TokenKind::Refresh, 1_000);
    assert_eq!(
        refresh,
        Claims { sub: "u1".to_string(), exp: 605_800, token_type: "refresh".to_string() }
    );
}

#[test]
fn claims_name_their_kind() {
    let mut claims = Claims::issued("u1", TokenKind::Access, 0);
    assert_eq!(claims.kind(), Some(TokenKind::Access));
    claims.token_type = "refresh".to_string();
    assert_eq!(claims.kind(), Some(TokenKind::Refresh));
    claims.token_type = "Access".to_string();
    assert_eq!(claims.kind(), None);
    claims.token_type = String::new();
    assert_eq!(claims.kind(), None);
}

#[test]
fn claims_clone_is_equal() {
    let claims = Claims::issued("u1", TokenKind::Refresh, 7);
    assert_eq!(claims.clone(), claims);
}

#[test]
fn config_needs_both_secrets() {
    assert_eq!(
        TokenConfig::from_values(None, Some("r".to_string())).unwrap_err(),
        ConfigError::MissingAccessSecret
    );
    assert_eq!(
        TokenConfig::from_values(Some("a".to_string()), None).unwrap_err(),
        ConfigError::MissingRefreshSecret
    );
    assert_eq!(
        TokenConfig::from_values(None, None).unwrap_err(),
        ConfigError::MissingAccessSecret
    );
    let cfg = TokenConfig::from_values(Some("a".to_string()), Some("r".to_string())).unwrap();
    assert_eq!(cfg.access_secret, "a");
    assert_eq!(cfg.refresh_secret, "r");
    assert_eq!(cfg.secret(TokenKind::Access), "a");
    assert_eq!(cfg.secret(TokenKind::Refresh), "r");
    let copy = cfg.clone();
    assert_eq!(copy.access_secret, "a");
    assert_eq!(copy.refresh_secret, "r");
}

#[test]
fn clock_reads_a_plausible_instant() {
    let now = unix_now();
    assert!(now > 1_600_000_000);
    assert!(now < CLOCK_LIMIT);
}

#[test]
fn access_token_round_trips() {
    let cfg = config();
    let token = create_access_token(&cfg, "64b7f0c2a1d4e5f6a7b8c9d0").unwrap();
    let before = unix_now();
    let claims = verify_token(&cfg, &token).unwrap();
    assert_eq!(claims.sub, "64b7f0c2a1d4e5f6a7b8c9d0");
    assert_eq!(claims.token_type, "access");
    assert!(claims.exp >= before + 899 && claims.exp <= before + 901);
}

#[test]
fn every_subject_round_trips() {
    let cfg = config();
    for subject in ["", "u", "with \"quotes\" and \\ slashes", "ünï¢ødé ✓", "a.b.c", "line\nbreak"] {
        let token = issue_at(&cfg, subject, TokenKind::Access, 1_700_000_000).unwrap();
        let claims = verify_token_at(&cfg, &token, 1_700_000_000).unwrap();
        assert_eq!(claims.sub, subject);
        assert_eq!(claims.exp, 1_700_000_900);
        assert_eq!(claims.token_type, "access");
    }
}

#[test]
fn issued_token_has_three_parts_and_known_payload() {
    let cfg = config();
    let token = issue_at(&cfg, "u1", TokenKind::Access, 1_700_000_000).unwrap();
    let parts: Vec<&str> = token.split('.').collect();
    assert_eq!(parts.len(), 3);
    assert_eq!(parts[0], "eyJ0eXAiOiJKV1QiLCJhbGciOiJIUzI1NiJ9");
    assert_eq!(
        parts[1],
        "eyJzdWIiOiJ1MSIsImV4cCI6MTcwMDAwMDkwMCwidG9rZW5fdHlwZSI6ImFjY2VzcyJ9"
    );
    assert_ne!(token, "u1");
}

#[test]
fn issuing_is_a_function_of_its_inputs() {
    let cfg = config();
    let a = issue_at(&cfg, "u1", TokenKind::Refresh, 42).unwrap();
    let b = issue_at(&cfg, "u1", TokenKind::Refresh, 42).unwrap();
    assert_eq!(a, b);
    let c = issue_at(&cfg, "u1", TokenKind::Refresh, 43).unwrap();
    assert_ne!(a, c);
    let d = issue_at(&cfg, "u2", TokenKind::Refresh, 42).unwrap();
    assert_ne!(a, d);
    let e = issue_at(&cfg, "u1", TokenKind::Access, 42).unwrap();
    assert_ne!(a, e);
}

#[test]
fn the_two_kinds_are_signed_under_different_secrets() {
    let cfg = config();
    let access = issue_at(&cfg, "u1", TokenKind::Access, 42).unwrap();
    let refresh = issue_at(&cfg, "u1", TokenKind::Refresh, 42).unwrap();
    let mut validation = jsonwebtoken::Validation::default();
    validation.validate_exp = false;
    let access_key = jsonwebtoken::DecodingKey::from_secret(b"access-secret");
    let refresh_key = jsonwebtoken::DecodingKey::from_secret(b"refresh-secret");
    assert!(jsonwebtoken::decode::<serde_json::Value>(&access, &access_key, &validation).is_ok());
    assert!(jsonwebtoken::decode::<serde_json::Value>(&access, &refresh_key, &validation).is_err());
    assert!(jsonwebtoken::decode::<serde_json::Value>(&refresh, &refresh_key, &validation).is_ok());
    assert!(jsonwebtoken::decode::<serde_json::Value>(&refresh, &access_key, &validation).is_err());
}

#[test]
fn expiry_boundary_is_exclusive() {
    let cfg = config();
    let now = 1_700_000_000u64;
    let token = issue_at(&cfg, "u1", TokenKind::Access, now).unwrap();
    let ok = verify_token_at(&cfg, &token, now + 899).unwrap();
    assert_eq!(
        ok,
        Claims { sub: "u1".to_string(), exp: now + 900, token_type: "access".to_string() }
    );
    assert_eq!(verify_token_at(&cfg, &token, now + 900), Err(TokenError::InvalidToken));
    assert_eq!(verify_token_at(&cfg, &token, now + 901), Err(TokenError::InvalidToken));
}

#[test]
fn refresh_boundary_is_seven_days() {
    let cfg = TokenConfig::new("same".to_string(), "same".to_string());
    let now = 1_700_000_000u64;
    let token = issue_at(&cfg, "u1", TokenKind::Refresh, now).unwrap();
    let ok = verify_token_at(&cfg, &token, now + 604_799).unwrap();
    assert_eq!(ok.exp, now + 604_800);
    assert_eq!(ok.token_type, "refresh");
    assert_eq!(verify_token_at(&cfg, &token, now + 604_800), Err(TokenError::InvalidToken));
}

#[test]
fn expired_token_fails_without_any_leeway() {
    let cfg = config();
    let now = unix_now();
    let just_expired = signed(payload(Some("u1"), Some(now - 1), Some("access")), "access-secret");
    assert_eq!(verify_token(&cfg, &just_expired), Err(TokenError::InvalidToken));
    let long_expired = signed(payload(Some("u1"), Some(1), Some("access")), "access-secret");
    assert_eq!(verify_token(&cfg, &long_expired), Err(TokenError::InvalidToken));
    let still_good = signed(payload(Some("u1"), Some(now + 60), Some("access")), "access-secret");
    assert_eq!(verify_token(&cfg, &still_good).unwrap().sub, "u1");
}

#[test]
fn expired_token_fails_whoever_signed_it() {
    let cfg = config();
    let good_signature = signed(payload(Some("u1"), Some(500), Some("access")), "access-secret");
    let bad_signature = signed(payload(Some("u1"), Some(500), Some("access")), "other");
    assert_eq!(verify_token_at(&cfg, &good_signature, 500), Err(TokenError::InvalidToken));
    assert_eq!(verify_token_at(&cfg, &bad_signature, 500), Err(TokenError::InvalidToken));
    assert_eq!(verify_token_at(&cfg, &bad_signature, 0), Err(TokenError::InvalidToken));
    assert!(verify_token_at(&cfg, &good_signature, 499).is_ok());
}

#[test]
fn token_signed_with_another_secret_fails() {
    let issuer = TokenConfig::new("one".to_string(), "r".to_string());
    let verifier = TokenConfig::new("two".to_string(), "r".to_string());
    let token = issue_at(&issuer, "u1", TokenKind::Access, 1_000).unwrap();
    assert!(verify_token_at(&issuer, &token, 1_000).is_ok());
    assert_eq!(verify_token_at(&verifier, &token, 1_000), Err(TokenError::InvalidToken));
}

#[test]
fn refresh_token_is_not_accepted_by_verify() {
    let cfg = config();
    let token = create_refresh_token(&cfg, "u1").unwrap();
    assert_eq!(verify_token(&cfg, &token), Err(TokenError::InvalidToken));
}

#[test]
fn refresh_token_verifies_where_the_secrets_agree() {
    let cfg = TokenConfig::new("same".to_string(), "same".to_string());
    let token = issue(&cfg, "u1", TokenKind::Refresh).unwrap();
    let claims = verify_token(&cfg, &token).unwrap();
    assert_eq!(claims.sub, "u1");
    assert_eq!(claims.token_type, "refresh");
    assert_eq!(claims.kind(), Some(TokenKind::Refresh));
}

#[test]
fn malformed_tokens_fail() {
    let cfg = config();
    let good = issue_at(&cfg, "u1", TokenKind::Access, 1_000).unwrap();
    let mut tampered = good.clone();
    let last = tampered.pop().unwrap();
    tampered.push(if last == 'A' { 'B' } else { 'A' });
    let two_parts: String = good.rsplitn(2, '.').last().unwrap().to_string();
    for token in ["", "abc", "a.b.c", "a.b", "....", tampered.as_str(), two_parts.as_str()] {
        assert_eq!(verify_token_at(&cfg, token, 1_000), Err(TokenError::InvalidToken));
    }
    assert!(verify_token_at(&cfg, &good, 1_000).is_ok());
}

#[test]
fn payload_must_hold_all_three_claims() {
    let cfg = config();
    let no_sub = signed(payload(None, Some(2_000), Some("access")), "access-secret");
    let no_exp = signed(payload(Some("u1"), None, Some("access")), "access-secret");
    let no_kind = signed(payload(Some("u1"), Some(2_000), None), "access-secret");
    for token in [no_sub, no_exp, no_kind] {
        assert_eq!(verify_token_at(&cfg, &token, 1_000), Err(TokenError::InvalidToken));
    }
    let mut wrong_type = payload(None, Some(2_000), Some("access"));
    wrong_type.insert("sub".to_string(), serde_json::Value::from(17u64));
    let token = signed(wrong_type, "access-secret");
    assert_eq!(verify_token_at(&cfg, &token, 1_000), Err(TokenError::InvalidToken));
    let mut negative = payload(Some("u1"), None, Some("access"));
    negative.insert("exp".to_string(), serde_json::Value::from(-5i64));
    let token = signed(negative, "access-secret");
    assert_eq!(verify_token_at(&cfg, &token, 0), Err(TokenError::InvalidToken));
}

#[test]
fn any_label_is_accepted_as_token_type() {
    let cfg = config();
    let token = signed(payload(Some("u1"), Some(2_000), Some("something")), "access-secret");
    let claims = verify_token_at(&cfg, &token, 1_000).unwrap();
    assert_eq!(claims.token_type, "something");
    assert_eq!(claims.kind(), None);
}

#[test]
fn extra_claims_are_ignored() {
    let cfg = config();
    let mut map = payload(Some("u1"), Some(2_000), Some("access"));
    map.insert("iat".to_string(), serde_json::Value::from(1_000u64));
    let token = signed(map, "access-secret");
    let claims = verify_token_at(&cfg, &token, 1_000).unwrap();
    assert_eq!(
        claims,
        Claims { sub: "u1".to_string(), exp: 2_000, token_type: "access".to_string() }
    );
}

#[test]
fn accept_payload_checks_presence_and_expiry() {
    let full = || DecodedPayload {
        sub: Some("u1".to_string()),
        exp: Some(100),
        token_type: Some("access".to_string()),
    };
    assert_eq!(
        accept_payload(full(), 99),
        Ok(Claims { sub: "u1".to_string(), exp: 100, token_type: "access".to_string() })
    );
    assert_eq!(accept_payload(full(), 100), Err(TokenError::InvalidToken));
    assert_eq!(accept_payload(full(), u64::MAX), Err(TokenError::InvalidToken));
    assert_eq!(
        accept_payload(DecodedPayload { sub: None, ..full() }, 0),
        Err(TokenError::InvalidToken)
    );
    assert_eq!(
        accept_payload(DecodedPayload { exp: None, ..full() }, 0),
        Err(TokenError::InvalidToken)
    );
    assert_eq!(
        accept_payload(DecodedPayload { token_type: None, ..full() }, 0),
        Err(TokenError::InvalidToken)
    );
    assert_eq!(
        accept_payload(DecodedPayload { exp: Some(0), ..full() }, 0),
        Err(TokenError::InvalidToken)
    );
}

#[test]
fn secrets_that_differ_only_in_trailing_nul_sign_alike() {
    // HMAC pads a short key with zero bytes, so these two secrets are one key.
    let issuer = TokenConfig::new("k\0".to_string(), "r".to_string());
    let verifier = TokenConfig::new("k".to_string(), "r".to_string());
    let token = issue_at(&issuer, "u1", TokenKind::Access, 1_000).unwrap();
    assert_eq!(verify_token_at(&verifier, &token, 1_000).unwrap().sub, "u1");
}
