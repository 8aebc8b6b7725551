use jsonwebtoken::{decode, DecodingKey, Validation};
use wx_miniprogram_server::config::JwtConfig;
use wx_miniprogram_server::error::AppError;
use wx_miniprogram_server::middleware::auth::bearer_token;
use wx_miniprogram_server::utils::jwt::{seconds_of, DecodedClaims, JwtService};

fn jwt(expires_in: i64) -> JwtConfig {
    JwtConfig { secret: "s3cret".to_string(), expires_in }
}

#[test]
fn seconds_round_down() {
    assert_eq!(seconds_of(1_700_000_000_999_999), 1_700_000_000);
    assert_eq!(seconds_of(0), 0);
    assert_eq!(seconds_of(-1), -1);
    assert_eq!(seconds_of(-1_000_000), -1);
    assert_eq!(seconds_of(-1_000_001), -2);
}

#[test]
fn claims_expire_after_the_lifetime() {
    let c = JwtService::claims_at(7, "oid", 1_700_000_000_500_000, 86400);
    assert_eq!(c.sub, 7);
    assert_eq!(c.openid, "oid");
    assert_eq!(c.iat, 1_700_000_000);
    assert_eq!(c.exp, 1_700_086_400);
}

#[test]
fn issued_token_decodes_to_its_claims() {
    let id: u128 = 0x67e55044_10b1_426f_9247_bb680e5fe0c8;
    let now = (chrono::Utc::now().timestamp()) * 1_000_000;
    let token = JwtService::generate_token_at(&jwt(3600), id, "openid-1", now).unwrap();
    let data = decode::<serde_json::Value>(
        &token,
        &DecodingKey::from_secret(b"s3cret"),
        &Validation::default(),
    )
    .unwrap();
    assert_eq!(data.header.alg, jsonwebtoken::Algorithm::HS256);
    assert_eq!(data.claims["sub"], "67e55044-10b1-426f-9247-bb680e5fe0c8");
    assert_eq!(data.claims["openid"], "openid-1");
    assert_eq!(data.claims["iat"], now / 1_000_000);
    assert_eq!(data.claims["exp"], now / 1_000_000 + 3600);
    let keys: Vec<&String> = data.claims.as_object().unwrap().keys().collect();
    assert_eq!(keys, ["sub", "openid", "exp", "iat"]);
}

#[test]
fn same_claims_give_same_token() {
    let a = JwtService::generate_token_at(&jwt(60), 1, "o", 5_000_000).unwrap();
    let b = JwtService::generate_token_at(&jwt(60), 1, "o", 5_999_999).unwrap();
    let c = JwtService::generate_token_at(&jwt(60), 1, "o", 6_000_000).unwrap();
    assert_eq!(a, b);
    assert_ne!(a, c);
}

#[test]
fn generate_token_uses_the_clock() {
    let token = JwtService::generate_token(&jwt(3600), 9, "o").unwrap();
    let data = decode::<serde_json::Value>(&token, &DecodingKey::from_secret(b"s3cret"), &Validation::default()).unwrap();
    let now = chrono::Utc::now().timestamp();
    let iat = data.claims["iat"].as_i64().unwrap();
    assert!(iat <= now && now - iat < 60);
}

fn decoded(sub: &str) -> DecodedClaims {
    DecodedClaims {
        sub: Some(sub.to_string()),
        openid: Some("o".to_string()),
        exp: Some(1_000),
        iat: Some(1),
    }
}

#[test]
fn decoded_claims_are_judged() {
    let hyph = "67e55044-10b1-426f-9247-bb680e5fe0c8";
    let id: u128 = 0x67e55044_10b1_426f_9247_bb680e5fe0c8;
    let before_expiry = Some(1_000 * 1_000_000);
    let r = JwtService::check_decoded(Some(decoded(hyph)), before_expiry).unwrap();
    assert_eq!((r.sub, r.openid.as_str(), r.exp, r.iat), (id, "o", 1_000, 1));
    for form in [
        "67E55044-10B1-426F-9247-BB680E5FE0C8",
        "67e5504410b1426f9247bb680e5fe0c8",
        "{67e55044-10b1-426f-9247-bb680e5fe0c8}",
        "URN:uuid:67e55044-10b1-426f-9247-bb680e5fe0c8",
    ] {
        assert_eq!(JwtService::check_decoded(Some(decoded(form)), before_expiry).unwrap().sub, id, "{}", form);
    }
    for bad in ["67e55044-10b1-426f-9247", "{67e5504410b1426f9247bb680e5fe0c8}", "67e55044_10b1_426f_9247_bb680e5fe0c8", "g7e5504410b1426f9247bb680e5fe0c8"] {
        assert!(matches!(JwtService::check_decoded(Some(decoded(bad)), before_expiry), Err(AppError::InvalidToken)), "{}", bad);
    }
    let mut missing = decoded(hyph);
    missing.iat = None;
    assert!(matches!(JwtService::check_decoded(Some(missing), before_expiry), Err(AppError::InvalidToken)));
    // leeway: accepted up to 60 seconds after exp, expired after that
    assert!(JwtService::check_decoded(Some(decoded(hyph)), Some(1_060 * 1_000_000)).is_ok());
    assert!(matches!(JwtService::check_decoded(Some(decoded(hyph)), Some(1_061 * 1_000_000)), Err(AppError::TokenExpired)));
    assert!(matches!(JwtService::check_decoded(Some(decoded(hyph)), None), Err(AppError::Internal(ref m)) if m == "system time before Unix epoch"));
    assert!(matches!(JwtService::check_decoded(None, None), Err(AppError::InvalidToken)));
    assert!(matches!(JwtService::check_decoded(None, Some(0)), Err(AppError::InvalidToken)));
}

#[test]
fn issued_tokens_verify_to_their_claims() {
    let id: u128 = 0x67e55044_10b1_426f_9247_bb680e5fe0c8;
    let now = chrono::Utc::now().timestamp_micros();
    let token = JwtService::generate_token_at(&jwt(3600), id, "openid-1", now).unwrap();
    let c = JwtService::verify_token(&jwt(3600), &token).unwrap();
    assert_eq!((c.sub, c.openid.as_str(), c.exp, c.iat), (id, "openid-1", now / 1_000_000 + 3600, now / 1_000_000));
    let other = JwtConfig { secret: "other".to_string(), expires_in: 3600 };
    assert!(matches!(JwtService::verify_token(&other, &token), Err(AppError::InvalidToken)));
    assert!(matches!(JwtService::verify_token(&jwt(3600), "not.a.token"), Err(AppError::InvalidToken)));
    assert!(matches!(JwtService::verify_token(&jwt(3600), "abc"), Err(AppError::InvalidToken)));
    let at = token.find('.').unwrap() + 5;
    let mut chars: Vec<char> = token.chars().collect();
    chars[at] = if chars[at] == 'x' { 'y' } else { 'x' };
    let altered: String = chars.into_iter().collect();
    assert!(matches!(JwtService::verify_token(&jwt(3600), &altered), Err(AppError::InvalidToken)));
    // an expired token signed with another secret is refused as invalid, not expired
    let old_other = JwtService::generate_token_at(&other, id, "o", 0).unwrap();
    assert!(matches!(JwtService::verify_token(&jwt(3600), &old_other), Err(AppError::InvalidToken)));
    let old = JwtService::generate_token_at(&jwt(-3600), id, "o", now).unwrap();
    assert!(matches!(JwtService::verify_token(&jwt(3600), &old), Err(AppError::TokenExpired)));
    let recent = JwtService::generate_token_at(&jwt(-30), id, "o", now).unwrap();
    assert!(JwtService::verify_token(&jwt(3600), &recent).is_ok());
}

#[test]
fn bearer_header_gives_the_token() {
    assert_eq!(bearer_token(Some("Bearer abc.def")), Some("abc.def".to_string()));
    assert_eq!(bearer_token(Some("Basic abc")), None);
    assert_eq!(bearer_token(Some("Bearerabc")), None);
    assert_eq!(bearer_token(None), None);
}

#[test]
fn signing_failure_becomes_internal_error() {
    assert_eq!(JwtService::token_outcome(Ok("t".to_string())).unwrap(), "t");
    match JwtService::token_outcome(Err("InvalidAlgorithm".to_string())) {
        Err(AppError::Internal(m)) => assert_eq!(m, "Token生成失败: InvalidAlgorithm"),
        other => panic!("{:?}", other),
    }
}

#[test]
fn latest_clock_reading_is_chronos_last_instant() {
    assert_eq!(
        chrono::DateTime::<chrono::Utc>::MAX_UTC.timestamp_micros(),
        wx_miniprogram_server::utils::jwt::LATEST_CLOCK_MICROS
    );
}
