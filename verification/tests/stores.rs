use auth_engine::auth_codes::AuthCodeStore;
use auth_engine::config::{AUTH_CODE_TTL_SECONDS, REFRESH_TOKEN_TTL_SECONDS};
use auth_engine::refresh_store::RefreshTokenStore;

#[test]
fn upsert_twice_keeps_only_the_second_token() {
    let mut store = RefreshTokenStore::new();
    let now: u64 = 1_700_000_000;
    store.upsert(1, String::from("auth_site"), String::from("token-one"), now);
    store.upsert(1, String::from("auth_site"), String::from("token-two"), now + 5);
    let rec = store
        .get(1, &String::from("auth_site"))
        .expect("the pair must have a record");
    assert_eq!(rec.get_token(), "token-two");
    assert_ne!(rec.get_token(), "token-one");
    assert_eq!(rec.get_created_timestamp(), now + 5);
    assert_eq!(rec.get_expires_timestamp(), now + 5 + REFRESH_TOKEN_TTL_SECONDS);
}

#[test]
fn upsert_keeps_other_pairs() {
    let mut store = RefreshTokenStore::new();
    let now: u64 = 1_700_000_000;
    store.upsert(1, String::from("auth_site"), String::from("t-alice"), now);
    store.upsert(2, String::from("auth_site"), String::from("t-bob"), now);
    store.upsert(1, String::from("game_site"), String::from("t-alice-game"), now);
    store.upsert(1, String::from("auth_site"), String::from("t-alice-2"), now);
    assert_eq!(
        store.get(2, &String::from("auth_site")).unwrap().get_token(),
        "t-bob"
    );
    assert_eq!(
        store.get(1, &String::from("game_site")).unwrap().get_token(),
        "t-alice-game"
    );
    assert_eq!(
        store.get(1, &String::from("auth_site")).unwrap().get_token(),
        "t-alice-2"
    );
}

#[test]
fn get_missing_pair_is_none() {
    let store = RefreshTokenStore::new();
    assert!(store.get(1, &String::from("auth_site")).is_none());
}

#[test]
fn delete_all_removes_every_client_of_the_user() {
    let mut store = RefreshTokenStore::new();
    let now: u64 = 1_700_000_000;
    store.upsert(1, String::from("auth_site"), String::from("a"), now);
    store.upsert(1, String::from("game_site"), String::from("b"), now);
    store.upsert(2, String::from("auth_site"), String::from("c"), now);
    let removed = store.delete_all(1);
    assert_eq!(removed, 2);
    assert!(store.get(1, &String::from("auth_site")).is_none());
    assert!(store.get(1, &String::from("game_site")).is_none());
    assert_eq!(
        store.get(2, &String::from("auth_site")).unwrap().get_token(),
        "c"
    );
}

#[test]
fn refresh_record_expiry_is_strict() {
    let mut store = RefreshTokenStore::new();
    let now: u64 = 1_700_000_000;
    store.upsert(1, String::from("auth_site"), String::from("t"), now);
    let rec = store.get(1, &String::from("auth_site")).unwrap();
    assert!(!rec.is_expired(now + REFRESH_TOKEN_TTL_SECONDS));
    assert!(rec.is_expired(now + REFRESH_TOKEN_TTL_SECONDS + 1));
}

#[test]
fn auth_code_take_consumes_the_code() {
    let mut codes = AuthCodeStore::new();
    let now: u64 = 1_700_000_000;
    codes.insert(1, String::from("game_site"), String::from("code-xyz"), now);
    let taken = codes.take(&String::from("code-xyz")).expect("stored code");
    assert_eq!(taken.get_user_id(), 1);
    assert_eq!(taken.get_client_id(), "game_site");
    assert_eq!(taken.get_expires_timestamp(), now + AUTH_CODE_TTL_SECONDS);
    assert!(codes.take(&String::from("code-xyz")).is_none());
    assert!(codes.get(&String::from("code-xyz")).is_none());
}

#[test]
fn auth_code_expiry_is_strict() {
    let mut codes = AuthCodeStore::new();
    let now: u64 = 1_700_000_000;
    codes.insert(3, String::from("game_site"), String::from("c"), now);
    let rec = codes.get(&String::from("c")).unwrap();
    assert!(!rec.is_expired(now + AUTH_CODE_TTL_SECONDS));
    assert!(rec.is_expired(now + AUTH_CODE_TTL_SECONDS + 1));
}

#[test]
fn auth_code_take_leaves_other_codes() {
    let mut codes = AuthCodeStore::new();
    let now: u64 = 1_700_000_000;
    codes.insert(1, String::from("game_site"), String::from("one"), now);
    codes.insert(2, String::from("other_site"), String::from("two"), now);
    assert!(codes.take(&String::from("one")).is_some());
    let rest = codes.get(&String::from("two")).unwrap();
    assert_eq!(rest.get_user_id(), 2);
}
