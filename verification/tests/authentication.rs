use axum_services::authentication::auth::{
    generate_jwt, generate_jwt_at, generate_refresh_token, hash_password, hash_refresh_token,
    claims_from_signed, token_after_checks, verify_jwt, verify_password, verify_refresh_token_hash, Claims,
    DecodedToken, JwtRejection,
};
use axum_services::authentication::middleware::caller_from_verification;
use base64::Engine;
use axum_services::authentication::errors::AppError;
use axum_services::authentication::handlers::{
    first_refresh_token_owner, login_authenticate, login_decide, login_issue, me_found,
    me_profile, me_user_id, refresh_finish,
    refresh_request_token, refresh_rotate, register_insert_failure, register_prepare,
    require_admin,
};
use axum_services::authentication::middleware::authenticate;
use axum_services::authentication::models::{RegisterPayload, User};
use axum_services::authentication::state::AuthSettings;

const ALICE: u128 = 0x67e5_5044_10b1_426f_9247_bb68_0e5f_e0c8;

fn account(id: u128, password: &str, role: &str) -> User {
    User {
        id,
        name: "Alice".to_string(),
        email: "alice@example.com".to_string(),
        password_hash: hash_password(password).unwrap(),
        role: role.to_string(),
        refresh_token_hash: None,
    }
}

#[test]
fn hashed_password_verifies() {
    let h = hash_password("correct horse").unwrap();
    assert_ne!(h, "correct horse");
    assert!(h.starts_with("$argon2id$"));
    assert!(verify_password(&h, "correct horse"));
    assert!(!verify_password(&h, "correct horsE"));
}

#[test]
fn two_hashes_of_one_password_differ_and_both_verify() {
    let a = hash_password("pw").unwrap();
    let b = hash_password("pw").unwrap();
    assert_ne!(a, b);
    assert!(verify_password(&a, "pw") && verify_password(&b, "pw"));
}

#[test]
fn malformed_hash_matches_nothing() {
    assert!(!verify_password("not a hash", "anything"));
    assert!(!verify_password("", ""));
}

#[test]
fn refresh_token_hash_round_trip() {
    let t = generate_refresh_token();
    let h = hash_refresh_token(&t).unwrap();
    assert!(verify_refresh_token_hash(&h, &t));
    assert!(!verify_refresh_token_hash(&h, "other"));
}

#[test]
fn refresh_tokens_are_43_url_safe_characters() {
    let a = generate_refresh_token();
    let b = generate_refresh_token();
    assert_eq!(a.len(), 43);
    assert!(a.chars().all(|c| c.is_ascii_alphanumeric() || c == '-' || c == '_'));
    assert_ne!(a, b);
}

#[test]
fn access_token_verifies_to_its_claims() {
    let t = generate_jwt("s3cret", "user-1", "admin", 15).unwrap();
    assert_eq!(t.split('.').count(), 3);
    let c = verify_jwt("s3cret", &t).unwrap().claims;
    assert_eq!(c.sub, "user-1");
    assert_eq!(c.role, "admin");
    let now: i64 = std::time::SystemTime::now()
        .duration_since(std::time::UNIX_EPOCH)
        .unwrap()
        .as_secs() as i64;
    assert!(c.exp >= now + 15 * 60 - 5 && c.exp <= now + 15 * 60 + 5);
}

#[test]
fn access_token_under_another_secret_is_refused() {
    let t = generate_jwt("s3cret", "user-1", "user", 15).unwrap();
    let e = verify_jwt("other", &t).unwrap_err();
    assert!(e.starts_with("Invalid JWT: "));
    assert_eq!(e, "Invalid JWT: InvalidSignature");
}

#[test]
fn expired_access_token_is_refused_as_expired() {
    let t = generate_jwt("s3cret", "user-1", "user", -10).unwrap();
    assert_eq!(verify_jwt("s3cret", &t).unwrap_err(), "Invalid JWT: ExpiredSignature");
    let old = generate_jwt_at("s3cret", "user-1", "user", 1, 0).unwrap();
    assert_eq!(verify_jwt("s3cret", &old).unwrap_err(), "Invalid JWT: ExpiredSignature");
}

#[test]
fn access_token_at_a_given_time_is_fixed() {
    let a = generate_jwt_at("k", "u", "r", 2, 1_000).unwrap();
    let b = generate_jwt_at("k", "u", "r", 2, 1_000).unwrap();
    let c = generate_jwt_at("k", "u", "r", 2, 1_001).unwrap();
    assert_eq!(a, b);
    assert_ne!(a, c);
}

#[test]
fn garbage_token_is_refused() {
    assert!(verify_jwt("k", "a.b.c").unwrap_err().starts_with("Invalid JWT: "));
    assert!(verify_jwt("k", "").is_err());
}

#[test]
fn expiry_beyond_the_year_9999_is_an_error() {
    let e = generate_jwt("k", "u", "r", 153_722_867_280_912_930).unwrap_err();
    assert_eq!(e, "Failed to generate JWT: expiry out of range");
    assert_eq!(
        generate_jwt_at("k", "u", "r", 1, 253_402_300_799).unwrap_err(),
        "Failed to generate JWT: expiry out of range"
    );
    assert!(generate_jwt_at("k", "u", "r", 0, 253_402_300_799).is_ok());
    assert!(generate_jwt_at("k", "u", "r", 0, -377_705_203_200).is_ok());
    assert!(generate_jwt_at("k", "u", "r", 0, -377_705_203_201).is_err());
    assert!(generate_jwt_at("k", "u", "r", -1, -377_705_203_200).is_err());
}

#[test]
fn short_password_is_a_bad_request() {
    let p = RegisterPayload {
        name: "A".to_string(),
        email: "a@x.io".to_string(),
        password: "1234567".to_string(),
    };
    match register_prepare(&p) {
        Err(AppError::BadRequest(m)) => assert_eq!(m, "Password too short (min 8)"),
        _ => panic!("expected a bad request"),
    }
}

#[test]
fn password_length_counts_bytes() {
    let p = RegisterPayload {
        name: "A".to_string(),
        email: "a@x.io".to_string(),
        password: "éééé".to_string(),
    };
    let n = register_prepare(&p).ok().unwrap();
    assert_eq!(n.role, "user");
    assert_eq!(n.email, "a@x.io");
    assert!(verify_password(&n.password_hash, "éééé"));
}

#[test]
fn unique_violation_is_a_conflict() {
    match register_insert_failure(
        Some("duplicate key value violates UNIQUE constraint \"users_email_key\""),
        "error returned from database",
    ) {
        AppError::Conflict(m) => assert_eq!(m, "Email already exists"),
        _ => panic!("expected a conflict"),
    }
    match register_insert_failure(Some("null value in column"), "db said no") {
        AppError::Internal(m) => assert_eq!(m, "db said no"),
        _ => panic!("expected an internal error"),
    }
    match register_insert_failure(None, "pool closed") {
        AppError::Internal(m) => assert_eq!(m, "pool closed"),
        _ => panic!("expected an internal error"),
    }
}

#[test]
fn login_without_account_or_with_wrong_password_is_unauthorized() {
    assert!(matches!(login_decide(None, "pw", "k", 15), Err(AppError::Unauthorized)));
    let u = account(ALICE, "password1", "user");
    assert!(matches!(login_decide(Some(&u), "password2", "k", 15), Err(AppError::Unauthorized)));
}

#[test]
fn login_grants_tokens_for_the_account() {
    let u = account(ALICE, "password1", "user");
    let g = login_decide(Some(&u), "password1", "k", 15).ok().unwrap();
    assert_eq!(g.user_id, ALICE);
    assert!(verify_refresh_token_hash(&g.refresh_token_hash, &g.response.refresh_token));
    let claims = verify_jwt("k", &g.response.access_token).unwrap().claims;
    assert_eq!(claims.sub, "67e55044-10b1-426f-9247-bb680e5fe0c8");
    assert_eq!(claims.role, "user");
    assert_eq!(me_user_id(&claims).ok(), Some(ALICE));
}

#[test]
fn refresh_needs_the_member() {
    match refresh_request_token(None) {
        Err(AppError::BadRequest(m)) => assert_eq!(m, "Missing refresh_token"),
        _ => panic!("expected a bad request"),
    }
    assert_eq!(refresh_request_token(Some("abc")).ok().as_deref(), Some("abc"));
}

#[test]
fn refresh_rotates_the_first_matching_account() {
    let token = generate_refresh_token();
    let mut a = account(1, "pw", "user");
    a.refresh_token_hash = Some(hash_refresh_token("something else").unwrap());
    let mut b = account(2, "pw", "user");
    b.refresh_token_hash = Some(hash_refresh_token(&token).unwrap());
    let mut c = account(3, "pw", "admin");
    c.refresh_token_hash = Some(hash_refresh_token(&token).unwrap());
    let users = vec![a, b, c];
    assert_eq!(first_refresh_token_owner(&users, &token), Some(1));
    let rot = refresh_rotate(&users, &token).ok().unwrap();
    assert_eq!(rot.user_index, 1);
    assert_eq!(rot.user_id, 2);
    assert_ne!(rot.refresh_token, token);
    assert!(verify_refresh_token_hash(&rot.refresh_token_hash, &rot.refresh_token));
    let new_refresh = rot.refresh_token.clone();
    let resp = refresh_finish("k", &users[1], 15, rot).ok().unwrap();
    assert_eq!(resp.refresh_token, new_refresh);
    let claims = verify_jwt("k", &resp.access_token).unwrap().claims;
    assert_eq!(me_user_id(&claims).ok(), Some(2));
}

#[test]
fn refresh_with_unknown_token_is_unauthorized() {
    let users = vec![account(1, "pw", "user")];
    assert_eq!(first_refresh_token_owner(&users, "nope"), None);
    assert!(matches!(refresh_rotate(&users, "nope"), Err(AppError::Unauthorized)));
}

#[test]
fn me_needs_a_uuid_subject_and_an_account() {
    let bad = Claims { sub: "not-a-uuid".to_string(), role: "user".to_string(), exp: 0 };
    assert!(matches!(me_user_id(&bad), Err(AppError::Unauthorized)));
    match me_found(None) {
        Err(AppError::NotFound(m)) => assert_eq!(m, "User not found"),
        _ => panic!("expected not found"),
    }
    assert_eq!(me_found(Some(account(5, "pw", "user"))).ok().unwrap().id, 5);
}

#[test]
fn only_admins_list_accounts() {
    let admin = Claims { sub: "x".to_string(), role: "admin".to_string(), exp: 0 };
    let user = Claims { sub: "x".to_string(), role: "Admin".to_string(), exp: 0 };
    assert!(require_admin(&admin).is_ok());
    assert!(matches!(require_admin(&user), Err(AppError::Unauthorized)));
}

#[test]
fn authentication_needs_settings_a_bearer_and_a_valid_token() {
    let t = generate_jwt("k", "u", "admin", 5).unwrap();
    assert!(matches!(authenticate(None, Some(&t)), Err(AppError::Unauthorized)));
    assert!(matches!(authenticate(Some("k"), None), Err(AppError::Unauthorized)));
    assert!(matches!(authenticate(Some("j"), Some(&t)), Err(AppError::Unauthorized)));
    let a = authenticate(Some("k"), Some(&t)).ok().unwrap();
    assert_eq!(a.0.sub, "u");
    assert_eq!(a.0.role, "admin");
}

#[test]
fn auth_error_answers() {
    let cases = vec![
        (AppError::NotFound("User not found".to_string()), 404u16, "User not found", "Not found: User not found"),
        (AppError::Unauthorized, 401, "unauthorized", "Unauthorized"),
        (AppError::BadRequest("b".to_string()), 400, "b", "Bad request: b"),
        (AppError::Conflict("c".to_string()), 409, "c", "Conflict: c"),
        (AppError::Internal("boom".to_string()), 500, "boom", "Internal error"),
    ];
    for (e, status, body, description) in cases {
        assert_eq!(e.status_code(), status);
        assert_eq!(e.body_message(), body);
        assert_eq!(e.description(), description);
    }
}

#[test]
fn settings_defaults_and_overrides() {
    let d = AuthSettings::from_env_values(None, None, None);
    assert_eq!(d.jwt_secret, "secret");
    assert_eq!(d.jwt_exp_minutes, 15);
    assert_eq!(d.refresh_token_exp_days, 30);
    let s = AuthSettings::from_env_values(
        Some("k".to_string()),
        Some("60".to_string()),
        Some("seven".to_string()),
    );
    assert_eq!(s.jwt_secret, "k");
    assert_eq!(s.jwt_exp_minutes, 60);
    assert_eq!(s.refresh_token_exp_days, 30);
    assert_eq!(AuthSettings::from_env_values(None, Some("-5".to_string()), Some("+2".to_string())).jwt_exp_minutes, -5);
}

#[test]
fn hashes_are_argon2id_phc_strings() {
    let h = hash_password("password").unwrap();
    assert!(h.starts_with("$argon2id$v=19$"));
    let r = hash_refresh_token("token").unwrap();
    assert!(r.starts_with("$argon2id$v=19$"));
    assert!(hash_password("").is_ok());
}

#[test]
fn access_token_claims_keep_their_order() {
    let t = generate_jwt_at("k", "user-1", "admin", 1, 1_000).unwrap();
    let payload = t.split('.').nth(1).unwrap();
    let json = base64::engine::general_purpose::URL_SAFE_NO_PAD.decode(payload).unwrap();
    assert_eq!(String::from_utf8(json).unwrap(), r#"{"sub":"user-1","role":"admin","exp":1060}"#);
}

#[test]
fn token_with_claims_of_another_shape_is_refused() {
    let mut claims = serde_json::Map::new();
    claims.insert("sub".to_string(), serde_json::Value::from("u"));
    claims.insert("exp".to_string(), serde_json::Value::from(32_503_680_000i64));
    let t = jsonwebtoken::encode(
        &jsonwebtoken::Header::default(),
        &serde_json::Value::Object(claims),
        &jsonwebtoken::EncodingKey::from_secret(b"k"),
    )
    .unwrap();
    assert_eq!(verify_jwt("k", &t).unwrap_err(), "Invalid JWT: claims of the wrong shape");
}

fn signed_token(members: &[(&str, serde_json::Value)]) -> String {
    let mut claims = serde_json::Map::new();
    for (k, v) in members {
        claims.insert(k.to_string(), v.clone());
    }
    jsonwebtoken::encode(
        &jsonwebtoken::Header::default(),
        &serde_json::Value::Object(claims),
        &jsonwebtoken::EncodingKey::from_secret(b"k"),
    )
    .unwrap()
}

#[test]
fn claims_shape_is_checked_before_expiry() {
    let expired_without_role = signed_token(&[
        ("sub", serde_json::Value::from("u")),
        ("exp", serde_json::Value::from(10i64)),
    ]);
    assert_eq!(
        verify_jwt("k", &expired_without_role).unwrap_err(),
        "Invalid JWT: claims of the wrong shape"
    );
    let without_exp = signed_token(&[
        ("sub", serde_json::Value::from("u")),
        ("role", serde_json::Value::from("r")),
    ]);
    assert_eq!(verify_jwt("k", &without_exp).unwrap_err(), "Invalid JWT: claims of the wrong shape");
    let negative_exp = signed_token(&[
        ("sub", serde_json::Value::from("u")),
        ("role", serde_json::Value::from("r")),
        ("exp", serde_json::Value::from(-5i64)),
    ]);
    assert_eq!(verify_jwt("k", &negative_exp).unwrap_err(), "Invalid JWT: Missing required claim: exp");
    let with_audience = signed_token(&[
        ("sub", serde_json::Value::from("u")),
        ("role", serde_json::Value::from("r")),
        ("exp", serde_json::Value::from(32_503_680_000i64)),
        ("aud", serde_json::Value::from("them")),
    ]);
    assert_eq!(verify_jwt("k", &with_audience).unwrap_err(), "Invalid JWT: InvalidAudience");
}

#[test]
fn decoder_answers_become_tokens_or_messages() {
    let whole = DecodedToken {
        header: jsonwebtoken::Header::default(),
        sub: Some("u".to_string()),
        role: Some("r".to_string()),
        exp: Some(9),
    };
    let d = claims_from_signed(Ok(whole)).unwrap();
    assert_eq!(d.claims.sub, "u");
    assert_eq!(d.claims.role, "r");
    assert_eq!(d.claims.exp, 9);
    assert_eq!(d.header.alg, jsonwebtoken::Algorithm::HS256);
    let partial = DecodedToken {
        header: jsonwebtoken::Header::default(),
        sub: Some("u".to_string()),
        role: None,
        exp: Some(9),
    };
    assert_eq!(claims_from_signed(Ok(partial)).unwrap_err(), "Invalid JWT: claims of the wrong shape");
    assert_eq!(
        claims_from_signed(Err("InvalidSignature".to_string())).unwrap_err(),
        "Invalid JWT: InvalidSignature"
    );
    let token = |exp: i64| {
        claims_from_signed(Ok(DecodedToken {
            header: jsonwebtoken::Header::default(),
            sub: Some("u".to_string()),
            role: Some("r".to_string()),
            exp: Some(exp),
        }))
        .unwrap()
    };
    assert_eq!(token_after_checks(token(3), Ok(())).unwrap().claims.exp, 3);
    assert_eq!(
        token_after_checks(token(3), Err(JwtRejection::Expired("ExpiredSignature".to_string()))).unwrap_err(),
        "Invalid JWT: ExpiredSignature"
    );
    assert_eq!(
        token_after_checks(token(3), Err(JwtRejection::Rejected("InvalidToken".to_string()))).unwrap_err(),
        "Invalid JWT: InvalidToken"
    );
}

#[test]
fn verifier_answer_names_the_caller() {
    let t = generate_jwt("k", "u", "admin", 5).unwrap();
    let a = caller_from_verification(verify_jwt("k", &t)).ok().unwrap();
    assert_eq!(a.0.sub, "u");
    assert!(matches!(
        caller_from_verification(Err("Invalid JWT: InvalidSignature".to_string())),
        Err(AppError::Unauthorized)
    ));
}

#[test]
fn login_steps_check_then_issue() {
    let u = account(ALICE, "password1", "user");
    assert!(matches!(login_authenticate(None, "password1"), Err(AppError::Unauthorized)));
    assert!(matches!(login_authenticate(Some(&u), "nope"), Err(AppError::Unauthorized)));
    let found = login_authenticate(Some(&u), "password1").ok().unwrap();
    assert_eq!(found.id, ALICE);
    let g = login_issue(found, "k", 15).ok().unwrap();
    assert_eq!(g.user_id, ALICE);
    assert!(g.refresh_token_hash.starts_with("$argon2id$v=19$"));
}

#[test]
fn refused_login_needs_no_valid_lifetime() {
    let u = account(ALICE, "password1", "user");
    assert!(matches!(login_decide(None, "pw", "k", i64::MAX), Err(AppError::Unauthorized)));
    assert!(matches!(login_decide(Some(&u), "pw", "k", i64::MAX), Err(AppError::Unauthorized)));
}

#[test]
fn me_answers_without_secrets() {
    let p = me_profile(account(9, "pw", "admin"));
    assert_eq!(p.id, 9);
    assert_eq!(p.name, "Alice");
    assert_eq!(p.email, "alice@example.com");
    assert_eq!(p.role, "admin");
}

#[test]
fn token_that_expires_now_is_issued() {
    let t = generate_jwt("k", "u", "r", 0).unwrap();
    assert_eq!(t.split('.').count(), 3);
}
