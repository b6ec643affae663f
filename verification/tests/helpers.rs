use auth_engine::auth::{
    admin_access, build_cleared_cookie, build_token_cookie, generate_refresh_token, AdminAccess,
    AuthError, UserReqData,
};
use auth_engine::passwords::{hash_password, verify_password};
use auth_engine::payloads::{BadNames, BadPassword, ClientInputs, LogoutData, SendToError, UpdateData};
use auth_engine::auth_code_shared::RefreshCheckSuccess;
use auth_engine::utils::{auth_client_id, string_length_valid, validate_real_name, StringRange, SupportedLangs};

#[test]
fn password_hash_round_trip() {
    let hash = hash_password(String::from("Secret123!"));
    assert!(verify_password(&String::from("Secret123!"), &hash));
    assert!(!verify_password(&String::from("secret123!"), &hash));
    assert!(!verify_password(&String::from("Secret123!"), &String::from("not-a-phc-hash")));
}

#[test]
fn two_hashes_of_the_same_password_differ_but_both_verify() {
    let h1 = hash_password(String::from("Same-Pw-1"));
    let h2 = hash_password(String::from("Same-Pw-1"));
    assert_ne!(h1, h2, "a fresh random salt must be drawn each time");
    assert!(verify_password(&String::from("Same-Pw-1"), &h1));
    assert!(verify_password(&String::from("Same-Pw-1"), &h2));
}

#[test]
fn refresh_tokens_are_long_alphanumeric_and_distinct() {
    let t1 = generate_refresh_token();
    let t2 = generate_refresh_token();
    assert_eq!(t1.len(), 64);
    assert_eq!(t2.len(), 64);
    assert!(t1.chars().all(|c| c.is_ascii_alphanumeric()));
    assert_ne!(t1, t2);
}

#[test]
fn token_cookie_attributes() {
    let c = build_token_cookie(String::from("v"), String::from("jwt"), true);
    assert_eq!(c.name, "jwt");
    assert_eq!(c.value, "v");
    assert!(c.http_only);
    assert!(c.secure);
    assert!(c.same_site_lax);
    assert_eq!(c.path, "/");
    assert!(!c.max_age_zero);

    let cleared = build_cleared_cookie(String::from("refresh_token"));
    assert_eq!(cleared.name, "refresh_token");
    assert_eq!(cleared.value, "");
    assert!(cleared.max_age_zero);
    assert!(cleared.http_only);
}

#[test]
fn auth_error_codes_and_messages() {
    assert_eq!(AuthError::MissingJwtSecret.error_code(), 500);
    assert_eq!(AuthError::AuthenticationFailed.error_code(), 401);
    assert_eq!(AuthError::NotFound.error_code(), 406);
    assert_eq!(AuthError::StorageError.error_code(), 500);
    assert_eq!(AuthError::MissingJwtSecret.message(), "Missing JWT Secret");
    assert_eq!(AuthError::AuthenticationFailed.message(), "Authentication required");
    assert_eq!(AuthError::NotFound.message(), "Not Found");
    assert_eq!(AuthError::StorageError.message(), "Internal server error");
}

#[test]
fn string_length_bounds_are_inclusive() {
    let range = StringRange { min: 2, max: 4 };
    assert!(!string_length_valid(StringRange { min: 2, max: 4 }, &String::from("a")));
    assert!(string_length_valid(StringRange { min: 2, max: 4 }, &String::from("ab")));
    assert!(string_length_valid(StringRange { min: 2, max: 4 }, &String::from("abcd")));
    assert!(!string_length_valid(range, &String::from("abcde")));
}

#[test]
fn string_length_is_measured_in_bytes() {
    // two characters, four bytes: the byte measure decides
    let accented = String::from("éé");
    assert_eq!(accented.len(), 4);
    assert!(string_length_valid(StringRange { min: 3, max: 5 }, &accented));
    assert!(!string_length_valid(StringRange { min: 5, max: 9 }, &accented));
    // one character, two bytes: an acceptable two-byte real name
    assert!(validate_real_name(&String::from("é")));
}

#[test]
fn real_name_length_check() {
    assert!(!validate_real_name(&String::from("a")));
    assert!(validate_real_name(&String::from("Jo")));
    assert!(validate_real_name(&String::from("Jonathan")));
    assert!(!validate_real_name(&"x".repeat(51)));
}

#[test]
fn auth_client_id_is_stable() {
    assert_eq!(auth_client_id(), "auth_site");
}

#[test]
fn supported_langs_parse_and_suffix() {
    assert!(matches!(SupportedLangs::from("en-CA"), SupportedLangs::English));
    assert!(matches!(SupportedLangs::from("fr-FR"), SupportedLangs::French));
    assert!(matches!(SupportedLangs::from("de"), SupportedLangs::English));
    assert!(matches!(SupportedLangs::from(""), SupportedLangs::English));
    assert_eq!(SupportedLangs::English.suffix(), "en");
    assert_eq!(SupportedLangs::French.suffix(), "fr");
}

#[test]
fn client_inputs_trim_all_strings() {
    let mut inputs = ClientInputs {
        site_domain: String::from("  https://a.example  "),
        site_name: String::from(" Site "),
        client_id: String::from("\tgame_site\n"),
        redirect_uri: String::from(" https://a.example/cb "),
        logo_url: String::from("  "),
        description: String::from(" d "),
        category: String::from(" c "),
        client_type: String::from(" t "),
        is_active: true,
    };
    inputs.trim_all_strings();
    assert_eq!(inputs.site_domain, "https://a.example");
    assert_eq!(inputs.site_name, "Site");
    assert_eq!(inputs.client_id, "game_site");
    assert_eq!(inputs.redirect_uri, "https://a.example/cb");
    assert_eq!(inputs.logo_url, "");
    assert_eq!(inputs.description, "d");
    assert_eq!(inputs.category, "c");
    assert_eq!(inputs.client_type, "t");
    assert!(inputs.is_active);
}

#[test]
fn admin_access_decisions() {
    let guest = UserReqData::new(None);
    assert!(!guest.is_admin());
    assert!(matches!(admin_access(&guest), AdminAccess::SendToLogin));

    let player = UserReqData {
        id: Some(2),
        username: Some(String::from("pat")),
        role: String::from("player"),
        logged_in: true,
    };
    assert!(!player.is_admin());
    assert!(matches!(admin_access(&player), AdminAccess::Forbidden));

    let admin = UserReqData {
        id: Some(1),
        username: Some(String::from("root")),
        role: String::from("admin"),
        logged_in: true,
    };
    assert!(admin.is_admin());
    assert!(matches!(admin_access(&admin), AdminAccess::Allowed));
}

#[test]
fn response_payload_constructors() {
    assert!(LogoutData::new().logout);
    assert!(UpdateData::new(true).success);
    assert!(!UpdateData::new(false).success);
    let bn = BadNames::new(422);
    assert_eq!(bn.code, 422);
    assert!(!bn.names_valid);
    let bp = BadPassword::new(422);
    assert_eq!(bp.code, 422);
    assert!(!bp.password_valid);
    let se = SendToError::new(403);
    assert_eq!(se.code, 403);
    assert!(se.send_to_error_page);
    assert!(RefreshCheckSuccess::new(true).get_is_valid());
    assert!(!RefreshCheckSuccess::new(false).get_is_valid());
}
