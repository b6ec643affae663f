use auth_engine::clients::{ClientDirectory, NewClientData};
use auth_engine::users::{User, UserDirectory, UserRole};

fn new_client(client_id: &str, internal: bool) -> NewClientData {
    NewClientData {
        site_domain: String::from("https://x.example"),
        site_name: String::from("X"),
        hashed_client_secret: String::from("hash"),
        client_id: String::from(client_id),
        redirect_uri: String::from("https://x.example/cb"),
        logo_url: String::from("https://x.example/logo.png"),
        description: String::from("desc"),
        category: String::from("cat"),
        client_type: String::from("confidential"),
        is_active: internal,
    }
}

#[test]
fn user_directory_add_and_lookups() {
    let mut users = UserDirectory::new();
    assert!(!users.username_taken(&String::from("alice")));
    let id = users
        .add_user(
            &String::from("alice"),
            &String::from("alice@example.com"),
            String::from("Secret123!"),
        )
        .unwrap();
    assert!(users.username_taken(&String::from("alice")));
    assert!(users.email_taken(&String::from("alice@example.com")));
    assert!(!users.email_taken(&String::from("other@example.com")));

    let by_id = users.get_user_by_id(id).expect("id lookup");
    assert_eq!(by_id.get_username(), "alice");
    assert_eq!(by_id.get_role(), "player");
    assert!(!by_id.get_email_verified());
    let by_name = users.get_user_by_username(&String::from("alice")).expect("name lookup");
    assert_eq!(by_name.get_id(), id);
    let by_email = users
        .get_user_by_email(&String::from("alice@example.com"))
        .expect("email lookup");
    assert_eq!(by_email.get_id(), id);
    assert!(users.get_user_by_id(id + 1).is_none());
    assert!(users.get_user_by_username(&String::from("bob")).is_none());
    assert!(users.get_user_by_email(&String::from("bob@example.com")).is_none());
}

#[test]
fn distinct_users_get_distinct_ids() {
    let mut users = UserDirectory::new();
    let a = users
        .add_user(&String::from("u1"), &String::from("u1@example.com"), String::from("Pw111111"))
        .unwrap();
    let b = users
        .add_user(&String::from("u2"), &String::from("u2@example.com"), String::from("Pw222222"))
        .unwrap();
    assert_ne!(a, b);
    assert_eq!(users.get_user_by_id(a).unwrap().get_username(), "u1");
    assert_eq!(users.get_user_by_id(b).unwrap().get_username(), "u2");
}

#[test]
fn user_new_and_name_getters() {
    let u = User::new(
        3,
        String::from("gina"),
        String::from("gina@example.com"),
        Some(String::from("Gina")),
        None,
        String::from("admin"),
        String::from("hash"),
        1_700_000_000,
        true,
    );
    assert_eq!(u.get_id(), 3);
    assert_eq!(u.get_username(), "gina");
    assert_eq!(u.get_role(), "admin");
    assert_eq!(u.get_password_hash(), "hash");
    assert!(u.get_email_verified());
    assert_eq!(u.get_first_name(), "Gina");
    assert_eq!(u.get_last_name(), "");
}

#[test]
fn user_role_strings() {
    assert_eq!(UserRole::Admin.as_str(), "admin");
    assert_eq!(UserRole::Player.as_str(), "player");
}

#[test]
fn client_directory_add_and_lookups() {
    let mut clients = ClientDirectory::new();
    assert!(clients.get_client_by_client_id(&String::from("game_site")).is_none());
    clients.add_client(new_client("game_site", true), false).unwrap();
    let site = clients
        .get_client_by_client_id(&String::from("game_site"))
        .expect("site lookup");
    assert_eq!(site.client_id, "game_site");
    assert!(site.get_is_active());
    assert!(!site.get_is_internal());

    let secret = clients.get_client_secret(&String::from("game_site")).unwrap();
    assert_eq!(secret.hashed_client_secret, "hash");
    let uri = clients.get_redirect_uri(&String::from("game_site")).unwrap();
    assert_eq!(uri, "https://x.example/cb");
    assert!(clients.get_client_secret(&String::from("missing")).is_none());
}

#[test]
fn internal_flag_is_kept() {
    let mut clients = ClientDirectory::new();
    clients.add_client(new_client("auth_site", true), true).unwrap();
    let own = clients.get_client_by_client_id(&String::from("auth_site")).unwrap();
    assert!(own.get_is_internal());
}

#[test]
fn client_refs_list_every_site() {
    let mut clients = ClientDirectory::new();
    clients.add_client(new_client("one", true), false).unwrap();
    clients.add_client(new_client("two", true), false).unwrap();
    let refs = clients.get_client_refs();
    assert_eq!(refs.len(), 2);
    assert!(refs.iter().any(|r| r.client_id == "one"));
    assert!(refs.iter().any(|r| r.client_id == "two"));
}
