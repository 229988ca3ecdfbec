use auth_core::auth::app_service::AppService;
use auth_core::auth::error::AuthError;
use auth_core::auth::models::{Profile, TokenBundle};
use auth_core::auth::static_provider::StaticProvider;
use auth_core::auth::store::MemoryAuthStore;
use auth_core::auth::token::JwtManager;
use auth_core::error::AppError;
use auth_core::user;
use auth_core::user::error::UserError;
use auth_core::user::models::User;
use auth_core::user::ports::Repository;
use auth_core::user::store::MemoryUserStore;

type Service = AppService<StaticProvider, MemoryAuthStore, MemoryUserStore>;

fn provider(bundle: Option<TokenBundle>, profile: Option<Profile>) -> StaticProvider {
    StaticProvider {
        id: 1,
        auth_url: "https://provider.example/authorize".to_owned(),
        csrf_token: "anti-forgery".to_owned(),
        exchange_result: bundle,
        exchange_error: "provider rejected the code".to_owned(),
        profile_result: profile,
        fetch_error: "connection reset".to_owned(),
        exchange_calls: 0,
        fetch_calls: 0,
    }
}

fn scenario_bundle(access_token: &str) -> TokenBundle {
    TokenBundle {
        access_token: access_token.to_owned(),
        refresh_token: Some("RT1".to_owned()),
        expires_in: Some(3_600),
        scopes: None,
    }
}

fn scenario_profile() -> Profile {
    Profile {
        sub: Some("g-42".to_owned()),
        given_name: Some("Ann".to_owned()),
        email: Some("a@x.com".to_owned()),
        picture: None,
    }
}

fn service(bundle: Option<TokenBundle>, profile: Option<Profile>) -> Service {
    let jwt_manager = JwtManager::new("flow test secret".to_owned());
    AppService::new(
        provider(bundle, profile),
        MemoryAuthStore::new(),
        user::app_service::AppService::new(MemoryUserStore::new(), jwt_manager.clone()),
        jwt_manager,
    )
}

#[test]
fn full_flow_creates_user_link_and_token() {
    let mut svc = service(Some(scenario_bundle("AT1")), Some(scenario_profile()));
    let token = svc.oauth_login("abc123".to_owned()).unwrap();

    let users = &svc.user_service.repo.rows;
    assert_eq!(users.len(), 1);
    assert_eq!(users[0].email.as_deref(), Some("a@x.com"));
    assert_eq!(users[0].name.as_deref(), Some("Ann"));
    assert_eq!(users[0].avatar_url, None);

    let rows = &svc.repo.rows;
    assert_eq!(rows.len(), 1);
    assert_eq!(rows[0].provider_user_id, "g-42");
    assert_eq!(rows[0].provider_id, 1);
    assert_eq!(rows[0].access_token, "AT1");
    assert_eq!(rows[0].refresh_token.as_deref(), Some("RT1"));
    assert_eq!(rows[0].user_id, users[0].user_id);
    assert_eq!(rows[0].expires_in, Some(rows[0].created_at + 3_600));

    let claims = svc.jwt_manager.verify_jwt(&token).unwrap();
    assert_eq!(claims.sub, users[0].user_id);
}

#[test]
fn relogin_updates_single_record() {
    let mut svc = service(Some(scenario_bundle("AT1")), Some(scenario_profile()));
    svc.oauth_login("abc123".to_owned()).unwrap();

    svc.provider.exchange_result = Some(scenario_bundle("AT2"));
    svc.provider.profile_result = Some(scenario_profile());
    svc.oauth_login("def456".to_owned()).unwrap();

    assert_eq!(svc.repo.rows.len(), 1);
    assert_eq!(svc.repo.rows[0].provider_user_id, "g-42");
    assert_eq!(svc.repo.rows[0].access_token, "AT2");
    assert_eq!(svc.user_service.repo.rows.len(), 1);
}

#[test]
fn exchange_failure_touches_no_store() {
    let mut svc = service(None, Some(scenario_profile()));
    let result = svc.oauth_login("bad-code".to_owned());
    assert!(matches!(
        result,
        Err(AppError::AuthError(AuthError::TokenExchangeError(_)))
    ));
    assert_eq!(svc.repo.upsert_calls, 0);
    assert_eq!(svc.user_service.repo.upsert_calls, 0);
    assert!(svc.repo.rows.is_empty());
    assert!(svc.user_service.repo.rows.is_empty());
}

#[test]
fn missing_refresh_token_aborts_with_invalid_token_kind() {
    let mut bundle = scenario_bundle("AT1");
    bundle.refresh_token = None;
    let mut svc = service(Some(bundle), Some(scenario_profile()));
    let result = svc.oauth_login("abc123".to_owned());
    assert!(matches!(
        result,
        Err(AppError::AuthError(AuthError::InvalidTokenError(_)))
    ));
    // The flow stops before the profile fetch and before any persistence.
    assert_eq!(svc.provider.fetch_calls, 0);
    assert_eq!(svc.repo.upsert_calls, 0);
    assert_eq!(svc.user_service.repo.upsert_calls, 0);
}

#[test]
fn fetch_failure_is_a_network_error() {
    let mut svc = service(Some(scenario_bundle("AT1")), None);
    let result = svc.oauth_login("abc123".to_owned());
    assert!(matches!(result, Err(AppError::NetworkError(_))));
    assert_eq!(svc.repo.upsert_calls, 0);
    assert_eq!(svc.user_service.repo.upsert_calls, 0);
}

#[test]
fn missing_subject_fails_authentication_without_upsert() {
    let mut profile = scenario_profile();
    profile.sub = None;
    let mut svc = service(Some(scenario_bundle("AT1")), Some(profile));
    let result = svc.oauth_login("abc123".to_owned());
    assert!(matches!(
        result,
        Err(AppError::AuthError(AuthError::AuthenticationFailed(_)))
    ));
    assert_eq!(svc.repo.upsert_calls, 0);
    assert_eq!(svc.user_service.repo.upsert_calls, 0);
}

#[test]
fn initiate_oauth_returns_the_provider_url() {
    let svc = service(None, None);
    let url = svc.initiate_oauth().unwrap();
    assert_eq!(url, "https://provider.example/authorize");
}

#[test]
fn profile_without_optional_fields_still_logs_in() {
    let profile = Profile {
        sub: Some("g-7".to_owned()),
        given_name: None,
        email: None,
        picture: None,
    };
    let mut svc = service(Some(scenario_bundle("AT9")), Some(profile));
    let token = svc.oauth_login("abc123".to_owned()).unwrap();
    assert_eq!(svc.user_service.repo.rows.len(), 1);
    assert_eq!(svc.user_service.repo.rows[0].email, None);
    let claims = svc.jwt_manager.verify_jwt(&token).unwrap();
    assert_eq!(claims.sub, svc.user_service.repo.rows[0].user_id);
}

#[test]
fn user_service_resolves_tokens_to_users() {
    let jwt_manager = JwtManager::new("lookup secret".to_owned());
    let mut store = MemoryUserStore::new();
    let stored = store
        .upsert_user(&User {
            user_id: 0,
            email: Some("a@x.com".to_owned()),
            name: Some("Ann".to_owned()),
            avatar_url: None,
            created_at: 1,
            updated_at: 1,
        })
        .unwrap();
    let service = user::app_service::AppService::new(store, jwt_manager.clone());

    let token = jwt_manager.create_jwt_at(stored.user_id, 1_000).unwrap();
    let found = service.get_user_by_id(&token).unwrap();
    assert_eq!(found.user_id, stored.user_id);
    assert_eq!(found.email.as_deref(), Some("a@x.com"));

    let stray = jwt_manager.create_jwt_at(stored.user_id + 7, 1_000).unwrap();
    let missing = service.get_user_by_id(&stray);
    assert!(matches!(
        missing,
        Err(AppError::UserError(UserError::UserNotFound))
    ));

    let invalid = service.get_user_by_id("garbage");
    assert!(matches!(invalid, Err(AppError::AuthError(_))));
}

#[test]
fn get_provider_id_maps_known_names() {
    assert_eq!(auth_core::get_provider_id("google"), 1);
    assert_eq!(auth_core::get_provider_id("github"), 0);
    assert_eq!(auth_core::get_provider_id(""), 0);
}
