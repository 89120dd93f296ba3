use payment_system::middleware::auth::{
    authenticate, check_password, check_registration, hash_password, timestamp_from_secs, Claims, JwtAuth, TokenType,
};

fn claims(token_type: TokenType, exp: i64, jti: Option<&str>) -> Claims {
    Claims {
        sub: "user-1".to_string(),
        exp,
        iat: exp - 3600,
        token_type,
        jti: jti.map(|j| j.to_string()),
    }
}

#[test]
fn issued_pair_carries_user_types_and_lifetimes() {
    let auth = JwtAuth::new(b"test_secret");
    let (access, refresh, expires) = auth.token_pair("user-1", 1_700_000_000, "s".to_string());
    assert_eq!(access.sub, "user-1");
    assert_eq!(access.token_type, TokenType::Access);
    assert_eq!(access.iat, 1_700_000_000);
    assert_eq!(access.exp, 1_700_003_600);
    assert_eq!(access.jti.as_deref(), Some("s"));
    assert_eq!(refresh.token_type, TokenType::Refresh);
    assert_eq!(refresh.exp, 1_700_604_800);
    assert_eq!(refresh.jti.as_deref(), Some("s"));
    assert_eq!(expires, access.exp);
}

#[test]
fn expiries_beyond_the_range_of_i64_saturate() {
    let auth = JwtAuth::new(b"test_secret");
    let (access, refresh, _) = auth.token_pair("user-1", i64::MAX - 10_000, "s".to_string());
    assert_eq!(access.exp, i64::MAX - 6_400);
    assert_eq!(refresh.exp, i64::MAX);
}

#[test]
fn issued_tokens_share_a_fresh_session_and_check_out_now() {
    let auth = JwtAuth::new(b"test_secret");
    let (access, refresh, expires) = auth.issue_tokens("user-7").unwrap();
    let session = access.jti.clone().unwrap();
    assert_eq!(session.len(), 36);
    assert_eq!(session.as_bytes()[14], b'4');
    assert!(matches!(session.as_bytes()[19], b'8' | b'9' | b'a' | b'b'));
    for (i, c) in session.bytes().enumerate() {
        if [8, 13, 18, 23].contains(&i) {
            assert_eq!(c, b'-');
        } else {
            assert!(c.is_ascii_digit() || (b'a'..=b'f').contains(&c));
        }
    }
    assert_eq!(refresh.jti.as_deref(), Some(session.as_str()));
    assert_eq!(access.exp, access.iat + 3600);
    assert_eq!(refresh.exp, refresh.iat + 604_800);
    assert_eq!(expires, access.exp);
    let (other, _, _) = auth.issue_tokens("user-7").unwrap();
    assert_ne!(other.jti, access.jti);

    let checked = auth.verify_claims(access).unwrap();
    assert_eq!(checked.sub, "user-7");
    let (renewed, renewed_exp) = auth.refresh_access_claims(refresh).unwrap();
    assert_eq!(renewed.token_type, TokenType::Access);
    assert_eq!(renewed.sub, "user-7");
    assert_eq!(renewed.jti.as_deref(), Some(session.as_str()));
    assert_eq!(renewed_exp, renewed.iat + 3600);
    let e = auth.refresh_access_claims(claims(TokenType::Access, i64::MAX, Some("x"))).unwrap_err();
    assert_eq!(e.status, 400);
    assert_eq!(e.message, "Invalid token type");
}

#[test]
fn a_token_expiring_at_the_end_of_time_is_accepted_now() {
    let auth = JwtAuth::new(b"test_secret");
    assert!(auth.verify_claims(claims(TokenType::Access, i64::MAX, Some("j"))).is_ok());
    let e = auth.verify_claims(claims(TokenType::Access, 0, Some("j"))).unwrap_err();
    assert_eq!(e.message, "Token has expired");
}

#[test]
fn valid_claims_are_accepted() {
    let auth = JwtAuth::new(b"test_secret");
    let c = auth.check_claims(claims(TokenType::Access, 100, Some("j")), 100).unwrap();
    assert_eq!(c.sub, "user-1");
}

#[test]
fn expired_claims_are_refused() {
    let auth = JwtAuth::new(b"test_secret");
    let e = auth.check_claims(claims(TokenType::Access, 99, Some("j")), 100).unwrap_err();
    assert_eq!(e.status, 401);
    assert_eq!(e.message, "Token has expired");
}

#[test]
fn logout_revokes_the_whole_session() {
    let mut auth = JwtAuth::new(b"test_secret");
    let (access, refresh, _) = auth.token_pair("user-1", 1_000, "jti-1".to_string());
    assert!(auth.blacklist_token(&access).is_ok());
    assert!(auth.is_revoked("jti-1"));
    let e = auth.check_claims(access, 1_000).unwrap_err();
    assert_eq!(e.status, 401);
    assert_eq!(e.message, "Token has been revoked");
    // The refresh token of the same login is refused too, and stays
    // refused after a purge at any time before it expires.
    auth.purge_expired(605_799);
    let e = auth.check_claims(refresh, 2_000).unwrap_err();
    assert_eq!(e.message, "Token has been revoked");
    // Other tokens of the same user are unaffected.
    assert!(auth.check_claims(claims(TokenType::Access, 500, Some("jti-2")), 100).is_ok());
}

#[test]
fn a_token_without_id_cannot_be_revoked() {
    let mut auth = JwtAuth::new(b"test_secret");
    let e = auth.blacklist_token(&claims(TokenType::Access, 500, None)).unwrap_err();
    assert_eq!(e.status, 400);
    assert_eq!(e.message, "Token does not support blacklisting");
}

#[test]
fn purge_drops_only_expired_revocations() {
    let mut auth = JwtAuth::new(b"test_secret");
    // Issued at -3500 and -3300: their sessions end at 601_300 and 601_500.
    auth.blacklist_token(&claims(TokenType::Access, 100, Some("old"))).unwrap();
    auth.blacklist_token(&claims(TokenType::Refresh, 300, Some("new"))).unwrap();
    auth.purge_expired(601_299);
    assert!(auth.is_revoked("old"));
    auth.purge_expired(601_300);
    assert!(!auth.is_revoked("old"));
    assert!(auth.is_revoked("new"));
    // The purged token is refused anyway, as expired.
    assert!(auth.check_claims(claims(TokenType::Access, 100, Some("old")), 601_301).is_err());
}

#[test]
fn refresh_needs_a_refresh_token() {
    let auth = JwtAuth::new(b"test_secret");
    let (c, exp) = auth
        .refresh_claims(claims(TokenType::Refresh, 9_999, Some("r")), 1_000)
        .unwrap();
    assert_eq!(c.token_type, TokenType::Access);
    assert_eq!(c.sub, "user-1");
    assert_eq!(c.iat, 1_000);
    assert_eq!(exp, 4_600);
    assert_eq!(c.jti.as_deref(), Some("r"));
    let e = auth.refresh_claims(claims(TokenType::Access, 9_999, Some("a")), 1_000).unwrap_err();
    assert_eq!(e.status, 400);
    assert_eq!(e.message, "Invalid token type");
}

#[test]
fn only_access_tokens_authenticate() {
    let u = authenticate(claims(TokenType::Access, 1, None)).unwrap();
    assert_eq!(u.user_id, "user-1");
    let e = authenticate(claims(TokenType::Refresh, 1, None)).unwrap_err();
    assert_eq!(e.status, 401);
    assert_eq!(e.message, "Cannot use refresh token for authentication");
}

#[test]
fn a_stored_hash_checks_its_password_only() {
    let hash = hash_password("password123").unwrap();
    assert!(check_password("password123", &hash).is_ok());
    let e = check_password("wrongpassword", &hash).unwrap_err();
    assert_eq!(e.status, 401);
    assert_eq!(e.message, "Invalid password");
}

#[test]
fn a_malformed_hash_is_a_server_error() {
    let e = check_password("password123", "not-a-hash").unwrap_err();
    assert_eq!(e.status, 500);
    assert!(e.message.starts_with("Failed to verify password: "));
}

fn signed_payload(exp: i64) -> serde_json::Value {
    let mut fields = serde_json::Map::new();
    fields.insert("sub".to_string(), serde_json::Value::from("user-1"));
    fields.insert("exp".to_string(), serde_json::Value::from(exp));
    serde_json::Value::Object(fields)
}

#[test]
fn keys_from_one_secret_sign_and_check_each_other() {
    let auth = JwtAuth::new(b"test_secret");
    let payload = signed_payload(32_503_680_000);
    let token = jsonwebtoken::encode(&jsonwebtoken::Header::default(), &payload, auth.encoding_key()).unwrap();
    let decoded = jsonwebtoken::decode::<serde_json::Value>(
        &token,
        auth.decoding_key(),
        &jsonwebtoken::Validation::default(),
    )
    .unwrap();
    assert_eq!(decoded.claims, payload);

    let other = JwtAuth::new(b"another_secret");
    let refused = jsonwebtoken::decode::<serde_json::Value>(
        &token,
        other.decoding_key(),
        &jsonwebtoken::Validation::default(),
    );
    assert!(refused.is_err());
}

#[test]
fn purging_now_forgets_sessions_that_ended_long_ago() {
    let mut auth = JwtAuth::new(b"test_secret");
    auth.blacklist_token(&claims(TokenType::Access, 100, Some("ancient"))).unwrap();
    auth.blacklist_token(&claims(TokenType::Access, i64::MAX, Some("lasting"))).unwrap();
    assert!(auth.purge_expired_now().is_ok());
    assert!(!auth.is_revoked("ancient"));
    assert!(auth.is_revoked("lasting"));
}

#[test]
fn clock_seconds_become_timestamps_within_chronos_range() {
    assert_eq!(timestamp_from_secs(0), Some(0));
    assert_eq!(timestamp_from_secs(1_700_000_000), Some(1_700_000_000));
    assert_eq!(timestamp_from_secs(8_210_266_876_799), Some(8_210_266_876_799));
    assert_eq!(timestamp_from_secs(8_210_266_876_800), None);
    assert_eq!(timestamp_from_secs(u64::MAX), None);
}

#[test]
fn stored_password_hashes_have_the_bcrypt_form() {
    let hash = check_registration(false, "password123").unwrap();
    assert_eq!(hash.len(), 60);
    assert!(hash.starts_with("$2b$12$"));
    assert_ne!(hash, "password123");
    assert!(check_password("password123", &hash).is_ok());
    let e = check_registration(true, "password123").unwrap_err();
    assert_eq!(e.status, 409);
    assert_eq!(e.message, "Username already exists");
}
