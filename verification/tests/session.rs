use auth_engine::auth::{generate_jwt, verify_jwt, JwtVerification};
use auth_engine::config::AuthConfig;
use auth_engine::middleware::{post_process, pre_process, NewJwtObj};
use auth_engine::refresh_store::RefreshTokenStore;

fn config_with_secret() -> AuthConfig {
    AuthConfig::new(Some(String::from("session-test-secret")), 1200, false)
}

#[test]
fn no_jwt_cookie_gives_guest() {
    let config = config_with_secret();
    let store = RefreshTokenStore::new();
    let outcome = pre_process(&config, &store, None, None, 1_700_000_000);
    assert!(!outcome.identity.logged_in);
    assert_eq!(outcome.identity.role, "guest");
    assert!(outcome.new_jwt.is_none());
}

#[test]
fn valid_token_authenticates_without_renewal() {
    let config = config_with_secret();
    let store = RefreshTokenStore::new();
    let now: u64 = 1_700_000_000;
    let token = generate_jwt(&config, 8, String::from("gail"), String::from("player"), now)
        .unwrap();
    let outcome = pre_process(&config, &store, Some(&token), None, now + 100);
    assert!(outcome.identity.logged_in);
    assert_eq!(outcome.identity.id, Some(8));
    assert_eq!(outcome.identity.username.as_deref(), Some("gail"));
    assert!(outcome.new_jwt.is_none());
}

#[test]
fn expired_token_with_matching_refresh_cookie_is_renewed() {
    let config = config_with_secret();
    let mut store = RefreshTokenStore::new();
    let issued: u64 = 1_700_000_000;
    let token = generate_jwt(&config, 8, String::from("gail"), String::from("player"), issued)
        .unwrap();
    let refresh_value = String::from("opaque-refresh-token-value");
    store.upsert(8, String::from("auth_site"), refresh_value.clone(), issued);

    // ten minutes past the access token's expiry
    let now = issued + 1200 + 600;
    let outcome = pre_process(&config, &store, Some(&token), Some(&refresh_value), now);
    assert!(outcome.identity.logged_in);
    assert_eq!(outcome.identity.id, Some(8));
    let renewed = outcome.new_jwt.expect("a renewed token must be pending");
    match verify_jwt(&config, renewed.get_token().as_str(), now) {
        JwtVerification::Valid(claims) => {
            assert_eq!(claims.get_sub(), 8);
            assert_eq!(claims.get_username(), "gail");
            assert_eq!(claims.get_role(), "player");
            assert_eq!(claims.get_exp(), now + 1200);
        }
        _ => panic!("renewed token must verify as Valid"),
    }
}

#[test]
fn renewal_is_repeatable_and_does_not_touch_the_store() {
    let config = config_with_secret();
    let mut store = RefreshTokenStore::new();
    let issued: u64 = 1_700_000_000;
    let token = generate_jwt(&config, 3, String::from("hank"), String::from("player"), issued)
        .unwrap();
    let refresh_value = String::from("stable-refresh-token");
    store.upsert(3, String::from("auth_site"), refresh_value.clone(), issued);

    let now = issued + 2400;
    let first = pre_process(&config, &store, Some(&token), Some(&refresh_value), now);
    let second = pre_process(&config, &store, Some(&token), Some(&refresh_value), now);
    let c1 = match verify_jwt(
        &config,
        first.new_jwt.unwrap().get_token().as_str(),
        now,
    ) {
        JwtVerification::Valid(c) => c,
        _ => panic!("expected Valid"),
    };
    let c2 = match verify_jwt(
        &config,
        second.new_jwt.unwrap().get_token().as_str(),
        now,
    ) {
        JwtVerification::Valid(c) => c,
        _ => panic!("expected Valid"),
    };
    assert_eq!(c1.get_sub(), c2.get_sub());
    assert_eq!(c1.get_username(), c2.get_username());
    assert_eq!(c1.get_role(), c2.get_role());
    assert_eq!(c1.get_exp(), c2.get_exp());
    // the stored record is untouched
    let rec = store.get(3, &String::from("auth_site")).unwrap();
    assert_eq!(rec.get_token(), "stable-refresh-token");
    assert_eq!(rec.get_created_timestamp(), issued);
}

#[test]
fn expired_token_without_refresh_cookie_is_guest_with_no_new_cookie() {
    let config = config_with_secret();
    let mut store = RefreshTokenStore::new();
    let issued: u64 = 1_700_000_000;
    let token = generate_jwt(&config, 8, String::from("gail"), String::from("player"), issued)
        .unwrap();
    store.upsert(8, String::from("auth_site"), String::from("present"), issued);
    let outcome = pre_process(&config, &store, Some(&token), None, issued + 5000);
    assert!(!outcome.identity.logged_in);
    assert_eq!(outcome.identity.role, "guest");
    assert!(outcome.new_jwt.is_none());
    assert!(post_process(&config, outcome.new_jwt.as_ref()).is_none());
}

#[test]
fn expired_token_with_mismatched_refresh_cookie_is_guest() {
    let config = config_with_secret();
    let mut store = RefreshTokenStore::new();
    let issued: u64 = 1_700_000_000;
    let token = generate_jwt(&config, 8, String::from("gail"), String::from("player"), issued)
        .unwrap();
    store.upsert(8, String::from("auth_site"), String::from("stored-token"), issued);
    let wrong = String::from("some-other-token");
    let outcome = pre_process(&config, &store, Some(&token), Some(&wrong), issued + 5000);
    assert!(!outcome.identity.logged_in);
    assert!(outcome.new_jwt.is_none());
}

#[test]
fn expired_token_with_expired_refresh_record_is_guest() {
    let config = config_with_secret();
    let mut store = RefreshTokenStore::new();
    let issued: u64 = 1_700_000_000;
    let token = generate_jwt(&config, 8, String::from("gail"), String::from("player"), issued)
        .unwrap();
    let refresh_value = String::from("old-refresh-token");
    store.upsert(8, String::from("auth_site"), refresh_value.clone(), issued);
    // far past the refresh record's own fourteen-day expiry
    let now = issued + 15 * 24 * 3600;
    let outcome = pre_process(&config, &store, Some(&token), Some(&refresh_value), now);
    assert!(!outcome.identity.logged_in);
    assert!(outcome.new_jwt.is_none());
}

#[test]
fn invalid_cookie_is_guest() {
    let config = config_with_secret();
    let store = RefreshTokenStore::new();
    let junk = String::from("junk-cookie");
    let outcome = pre_process(&config, &store, Some(&junk), None, 1_700_000_000);
    assert!(!outcome.identity.logged_in);
    assert!(outcome.new_jwt.is_none());
}

#[test]
fn post_process_builds_the_jwt_cookie() {
    let config = AuthConfig::new(Some(String::from("s")), 1200, true);
    let pending = NewJwtObj::new(String::from("freshly-minted"));
    let cookie = post_process(&config, Some(&pending)).expect("a cookie must be built");
    assert_eq!(cookie.name, "jwt");
    assert_eq!(cookie.value, "freshly-minted");
    assert!(cookie.http_only);
    assert!(cookie.secure);
    assert!(cookie.same_site_lax);
    assert_eq!(cookie.path, "/");
    assert!(!cookie.max_age_zero);
    assert_eq!(pending.get_token(), "freshly-minted");
    assert!(post_process(&config, None).is_none());
}
