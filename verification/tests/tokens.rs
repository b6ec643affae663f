use auth_engine::auth::{generate_jwt, verify_jwt, AuthError, JwtVerification, UserReqData};
use auth_engine::config::AuthConfig;

fn config_with_secret() -> AuthConfig {
    AuthConfig::new(Some(String::from("a-test-signing-secret")), 1200, false)
}

#[test]
fn issue_then_verify_before_expiry_is_valid_with_same_claims() {
    let config = config_with_secret();
    let now: u64 = 1_700_000_000;
    let token = generate_jwt(&config, 42, String::from("alice"), String::from("player"), now)
        .expect("signing should succeed with a configured secret");
    match verify_jwt(&config, token.as_str(), now + 600) {
        JwtVerification::Valid(claims) => {
            assert_eq!(claims.get_sub(), 42);
            assert_eq!(claims.get_username(), "alice");
            assert_eq!(claims.get_role(), "player");
            assert_eq!(claims.get_exp(), now + 1200);
        }
        _ => panic!("expected Valid"),
    }
}

#[test]
fn verify_at_exact_expiry_is_still_valid() {
    let config = config_with_secret();
    let now: u64 = 1_700_000_000;
    let token = generate_jwt(&config, 1, String::from("bob"), String::from("admin"), now).unwrap();
    assert!(matches!(
        verify_jwt(&config, token.as_str(), now + 1200),
        JwtVerification::Valid(_)
    ));
}

#[test]
fn verify_after_expiry_is_expired_with_claims_intact() {
    let config = config_with_secret();
    let now: u64 = 1_700_000_000;
    let token = generate_jwt(&config, 7, String::from("carol"), String::from("player"), now)
        .unwrap();
    match verify_jwt(&config, token.as_str(), now + 1201) {
        JwtVerification::Expired(claims) => {
            assert_eq!(claims.get_sub(), 7);
            assert_eq!(claims.get_username(), "carol");
            assert_eq!(claims.get_role(), "player");
            assert_eq!(claims.get_exp(), now + 1200);
        }
        _ => panic!("expected Expired"),
    }
}

#[test]
fn tampering_one_byte_yields_invalid() {
    let config = config_with_secret();
    let now: u64 = 1_700_000_000;
    let token = generate_jwt(&config, 9, String::from("dave"), String::from("player"), now)
        .unwrap();
    let bytes = token.into_bytes();
    for i in 0..bytes.len() {
        let mut tampered = bytes.clone();
        tampered[i] = if tampered[i] == b'A' { b'B' } else { b'A' };
        if tampered[i] == bytes[i] {
            continue;
        }
        let tampered = String::from_utf8(tampered).unwrap();
        assert!(
            matches!(
                verify_jwt(&config, tampered.as_str(), now),
                JwtVerification::Invalid
            ),
            "tampering byte {} did not invalidate the token",
            i
        );
    }
}

#[test]
fn verify_under_wrong_secret_is_invalid() {
    let config = config_with_secret();
    let other = AuthConfig::new(Some(String::from("another-secret")), 1200, false);
    let now: u64 = 1_700_000_000;
    let token = generate_jwt(&config, 5, String::from("erin"), String::from("player"), now)
        .unwrap();
    assert!(matches!(
        verify_jwt(&other, token.as_str(), now),
        JwtVerification::Invalid
    ));
}

#[test]
fn missing_secret_fails_signing_and_verification() {
    let config = AuthConfig::new(None, 1200, false);
    let now: u64 = 1_700_000_000;
    let r = generate_jwt(&config, 5, String::from("erin"), String::from("player"), now);
    assert!(matches!(r, Err(AuthError::MissingJwtSecret)));
    assert!(matches!(
        verify_jwt(&config, "anything", now),
        JwtVerification::Invalid
    ));
}

#[test]
fn garbage_token_is_invalid() {
    let config = config_with_secret();
    assert!(matches!(
        verify_jwt(&config, "not.a.token", 0),
        JwtVerification::Invalid
    ));
    assert!(matches!(verify_jwt(&config, "", 0), JwtVerification::Invalid));
}

#[test]
fn user_req_data_from_claims_and_guest() {
    let config = config_with_secret();
    let now: u64 = 1_700_000_000;
    let token = generate_jwt(&config, 11, String::from("frank"), String::from("admin"), now)
        .unwrap();
    let claims = match verify_jwt(&config, token.as_str(), now) {
        JwtVerification::Valid(c) => c,
        _ => panic!("expected Valid"),
    };
    let logged_in = UserReqData::new(Some(claims));
    assert_eq!(logged_in.id, Some(11));
    assert_eq!(logged_in.username.as_deref(), Some("frank"));
    assert_eq!(logged_in.role, "admin");
    assert!(logged_in.logged_in);

    let guest = UserReqData::new(None);
    assert_eq!(guest.id, None);
    assert_eq!(guest.username, None);
    assert_eq!(guest.role, "guest");
    assert!(!guest.logged_in);
}
