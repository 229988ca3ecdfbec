use auth_core::auth::app_service::{build_authorization, map_exchange_result, map_fetch_result};
use auth_core::auth::error::AuthError;
use auth_core::auth::google_provider::profile_from_response;
use auth_core::error::AppError;
use auth_core::auth::google_provider::GoogleProvider;
use auth_core::auth::models::{OAuthAuthorizationBuilder, Profile, TokenBundle};
use auth_core::auth::app_service::{extract_provider_user_id, require_refresh_token, user_from_profile};
use auth_core::auth::token::JwtManager;
use auth_core::user::models::UserBuilder;
use auth_core::user::ports::Repository;
use auth_core::user::store::MemoryUserStore;

#[test]
fn authorization_builder_applies_defaults() {
    let record = OAuthAuthorizationBuilder::new().build();
    assert_eq!(record.auth_id, 0);
    assert_eq!(record.user_id, 0);
    assert_eq!(record.provider_id, 0);
    assert_eq!(record.provider_user_id, "");
    assert_eq!(record.access_token, "");
    assert_eq!(record.refresh_token, None);
    assert_eq!(record.expires_in, None);
    assert_eq!(record.scope, None);
}

#[test]
fn authorization_builder_keeps_set_fields() {
    let record = OAuthAuthorizationBuilder::new()
        .auth_id(5)
        .user_id(7)
        .provider_id(1)
        .provider_user_id("g-42".to_owned())
        .access_token("AT".to_owned())
        .refresh_token("RT".to_owned())
        .expires_in(999)
        .scope(vec!["email".to_owned()])
        .created_at(10)
        .updated_at(20)
        .build();
    assert_eq!(record.auth_id, 5);
    assert_eq!(record.user_id, 7);
    assert_eq!(record.provider_id, 1);
    assert_eq!(record.provider_user_id, "g-42");
    assert_eq!(record.access_token, "AT");
    assert_eq!(record.refresh_token.as_deref(), Some("RT"));
    assert_eq!(record.expires_in, Some(999));
    assert_eq!(record.scope, Some(vec!["email".to_owned()]));
    assert_eq!(record.created_at, 10);
    assert_eq!(record.updated_at, 20);
}

#[test]
fn user_builder_keeps_set_fields_and_defaults() {
    let user = UserBuilder::new()
        .user_id(3)
        .email("a@x.com".to_owned())
        .name("Ann".to_owned())
        .avatar_url("https://img.example/a.png".to_owned())
        .created_at(1)
        .updated_at(2)
        .build();
    assert_eq!(user.user_id, 3);
    assert_eq!(user.email.as_deref(), Some("a@x.com"));
    assert_eq!(user.name.as_deref(), Some("Ann"));
    assert_eq!(user.avatar_url.as_deref(), Some("https://img.example/a.png"));
    assert_eq!(user.created_at, 1);
    assert_eq!(user.updated_at, 2);

    let bare = UserBuilder::new().build();
    assert_eq!(bare.user_id, 0);
    assert_eq!(bare.email, None);
}

#[test]
fn require_refresh_token_accepts_and_rejects() {
    let mut bundle = TokenBundle {
        access_token: "AT".to_owned(),
        refresh_token: Some("RT".to_owned()),
        expires_in: None,
        scopes: None,
    };
    assert_eq!(require_refresh_token(&bundle).unwrap(), "RT");
    bundle.refresh_token = None;
    assert!(require_refresh_token(&bundle).is_err());
}

#[test]
fn subject_extraction_and_user_mapping() {
    let profile = Profile {
        sub: Some("g-42".to_owned()),
        given_name: Some("Ann".to_owned()),
        email: Some("a@x.com".to_owned()),
        picture: Some("https://img.example/a.png".to_owned()),
    };
    assert_eq!(extract_provider_user_id(&profile).unwrap(), "g-42");
    let user = user_from_profile(&profile, 77);
    assert_eq!(user.user_id, 0);
    assert_eq!(user.name.as_deref(), Some("Ann"));
    assert_eq!(user.email.as_deref(), Some("a@x.com"));
    assert_eq!(user.avatar_url.as_deref(), Some("https://img.example/a.png"));
    assert_eq!(user.created_at, 77);
    assert_eq!(user.updated_at, 77);
}

#[test]
fn build_authorization_computes_expiry_and_handles_overflow() {
    let record = build_authorization(
        7,
        1,
        "g-42".to_owned(),
        "AT".to_owned(),
        "RT".to_owned(),
        Some(3_600),
        Some(vec!["email".to_owned()]),
        1_000,
    );
    assert_eq!(record.user_id, 7);
    assert_eq!(record.provider_id, 1);
    assert_eq!(record.expires_in, Some(4_600));
    assert_eq!(record.scope, Some(vec!["email".to_owned()]));
    assert_eq!(record.created_at, 1_000);
    assert_eq!(record.updated_at, 1_000);

    let overflowing = build_authorization(
        7,
        1,
        "g-42".to_owned(),
        "AT".to_owned(),
        "RT".to_owned(),
        Some(i64::MAX),
        None,
        1_000,
    );
    assert_eq!(overflowing.expires_in, None);
}

#[test]
fn step_failures_map_to_their_kinds() {
    let exchange = map_exchange_result(Err("code already used".to_owned()));
    assert_eq!(
        exchange.unwrap_err(),
        AppError::AuthError(AuthError::TokenExchangeError("code already used".to_owned()))
    );
    let passthrough = map_exchange_result(Ok(TokenBundle {
        access_token: "AT".to_owned(),
        refresh_token: None,
        expires_in: None,
        scopes: None,
    }));
    assert_eq!(passthrough.unwrap().access_token, "AT");

    let fetch = map_fetch_result(Err("connection reset".to_owned()));
    assert_eq!(
        fetch.unwrap_err(),
        AppError::NetworkError("connection reset".to_owned())
    );
}

#[test]
fn profile_fetch_requires_a_success_status() {
    let ok = profile_from_response(
        200,
        Some("g-42".to_owned()),
        None,
        Some("a@x.com".to_owned()),
        None,
    )
    .unwrap();
    assert_eq!(ok.sub.as_deref(), Some("g-42"));
    assert_eq!(ok.email.as_deref(), Some("a@x.com"));
    assert!(profile_from_response(204, None, None, None, None).is_ok());

    // A non-2xx answer fails even when the body parsed.
    assert!(profile_from_response(401, Some("g-42".to_owned()), None, None, None).is_err());
    assert!(profile_from_response(500, None, None, None, None).is_err());
    assert!(profile_from_response(302, None, None, None, None).is_err());
}

#[test]
fn google_authorization_url_extends_the_endpoint() {
    let provider = GoogleProvider::new(
        "client-id".to_owned(),
        "client-secret".to_owned(),
        "https://app.example/auth/google/callback".to_owned(),
    );
    let (url, csrf_token) = provider.get_authorization_url().unwrap();
    assert!(url.starts_with("https://accounts.google.com/o/oauth2/v2/auth?"));
    assert!(url.contains("access_type=offline"));
    assert!(url.contains("prompt=consent"));
    assert!(url.contains("client_id=client-id"));
    assert!(url.contains("scope=email+profile+openid"));
    assert!(url.contains("response_type=code"));
    assert!(url.contains(&format!("state={}", csrf_token)));
    assert!(!csrf_token.is_empty());
    assert_eq!(provider.provider_id(), 1);
}

#[test]
fn google_authorization_url_rejects_invalid_redirect() {
    let provider = GoogleProvider::new(
        "client-id".to_owned(),
        "client-secret".to_owned(),
        "not a url".to_owned(),
    );
    assert!(provider.get_authorization_url().is_err());
}

#[test]
fn clock_backed_issue_is_consistent_with_store_timestamps() {
    // The default-build path stamps records with the live clock; issuing a
    // token afterwards must not fail.
    let manager = JwtManager::new("s".to_owned());
    let mut store = MemoryUserStore::new();
    let user = store
        .upsert_user(&UserBuilder::new().email("t@x.com".to_owned()).build())
        .unwrap();
    assert!(manager.create_jwt(user.user_id).is_ok());
}
