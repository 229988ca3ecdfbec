use auth_core::auth::models::OAuthAuthorization;
use auth_core::auth::ports::Repository as AuthRepository;
use auth_core::auth::store::MemoryAuthStore;
use auth_core::user::error::UserError;
use auth_core::user::models::User;
use auth_core::user::ports::Repository as UserRepository;
use auth_core::user::store::MemoryUserStore;

fn record(subject: &str, access_token: &str, user_id: i32) -> OAuthAuthorization {
    OAuthAuthorization {
        auth_id: 0,
        user_id,
        provider_id: 1,
        provider_user_id: subject.to_owned(),
        access_token: access_token.to_owned(),
        refresh_token: Some("refresh".to_owned()),
        expires_in: None,
        scope: Some(vec!["email".to_owned(), "profile".to_owned()]),
        created_at: 100,
        updated_at: 100,
    }
}

fn user(email: Option<&str>, name: Option<&str>) -> User {
    User {
        user_id: 0,
        email: email.map(|s| s.to_owned()),
        name: name.map(|s| s.to_owned()),
        avatar_url: None,
        created_at: 5,
        updated_at: 5,
    }
}

#[test]
fn auth_store_upsert_inserts_then_merges() {
    let mut store = MemoryAuthStore::new();
    store.upsert_oauth(&record("g-1", "first", 10)).unwrap();
    store.upsert_oauth(&record("g-2", "other", 11)).unwrap();
    let mut again = record("g-1", "second", 99);
    again.updated_at = 200;
    store.upsert_oauth(&again).unwrap();

    assert_eq!(store.rows.len(), 2);
    assert_eq!(store.rows[0].provider_user_id, "g-1");
    assert_eq!(store.rows[0].access_token, "second");
    // The merge keeps ownership and creation time.
    assert_eq!(store.rows[0].user_id, 10);
    assert_eq!(store.rows[0].created_at, 100);
    assert_eq!(store.rows[0].updated_at, 200);
    assert_eq!(store.rows[1].provider_user_id, "g-2");
    assert_eq!(store.upsert_calls, 3);
}

#[test]
fn user_store_upsert_keys_by_email() {
    let mut store = MemoryUserStore::new();
    let first = store.upsert_user(&user(Some("a@x.com"), Some("Ann"))).unwrap();
    let second = store.upsert_user(&user(Some("a@x.com"), Some("Anne"))).unwrap();
    assert_eq!(store.rows.len(), 1);
    assert_eq!(first.user_id, second.user_id);
    assert_eq!(store.rows[0].name.as_deref(), Some("Anne"));
    assert_eq!(store.rows[0].created_at, first.created_at);
}

#[test]
fn user_store_without_email_always_inserts() {
    let mut store = MemoryUserStore::new();
    let first = store.upsert_user(&user(None, Some("Ann"))).unwrap();
    let second = store.upsert_user(&user(None, Some("Ann"))).unwrap();
    assert_eq!(store.rows.len(), 2);
    assert_ne!(first.user_id, second.user_id);
}

#[test]
fn user_store_lookup_by_id() {
    let mut store = MemoryUserStore::new();
    let stored = store.upsert_user(&user(Some("a@x.com"), None)).unwrap();
    let found = store.get_user_by_id(stored.user_id).unwrap();
    assert_eq!(found.user_id, stored.user_id);
    assert_eq!(found.email.as_deref(), Some("a@x.com"));
    let missing = store.get_user_by_id(stored.user_id + 1);
    assert!(matches!(missing, Err(UserError::UserNotFound)));
}
