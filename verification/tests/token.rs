use auth_core::auth::error::AuthError;
use auth_core::auth::token::{Claims, JwtManager};

#[test]
fn issue_then_verify_returns_subject() {
    let manager = JwtManager::new("a shared signing secret".to_owned());
    let token = manager.create_jwt_at(42, 1_000).unwrap();
    let claims = manager.verify_jwt(&token).unwrap();
    assert_eq!(claims, Claims { sub: 42, exp: 4_600 });
}

#[test]
fn issue_then_verify_law_on_concrete_values() {
    let manager = JwtManager::new("another secret".to_owned());
    let claims = manager.issue_then_verify(-3, 1_700_000_000);
    assert_eq!(claims.sub, -3);
    assert_eq!(claims.exp, 1_700_000_000 + 3_600);
}

#[test]
fn create_jwt_uses_the_clock() {
    let manager = JwtManager::new("clock secret".to_owned());
    let token = manager.create_jwt(7).unwrap();
    let claims = manager.verify_jwt(&token).unwrap();
    assert_eq!(claims.sub, 7);
    assert!(claims.exp > 3_600);
}

#[test]
fn token_decodes_under_jsonwebtoken_directly() {
    // Cross-check against the JWT library itself: the issued token is a
    // real HS256 JWT carrying the expected claims.
    let manager = JwtManager::new("cross check secret".to_owned());
    let token = manager.create_jwt_at(1234, 50_000).unwrap();
    let mut validation = jsonwebtoken::Validation::new(jsonwebtoken::Algorithm::HS256);
    validation.validate_exp = false;
    let key = jsonwebtoken::DecodingKey::from_secret(b"cross check secret");
    let data = jsonwebtoken::decode::<serde_json::Value>(&token, &key, &validation).unwrap();
    assert_eq!(data.claims.get("sub").and_then(|v| v.as_i64()), Some(1234));
    assert_eq!(data.claims.get("exp").and_then(|v| v.as_i64()), Some(53_600));
}

#[test]
fn verify_rejects_tampered_token() {
    let manager = JwtManager::new("secret".to_owned());
    let token = manager.create_jwt_at(42, 1_000).unwrap();
    let mut tampered = token.clone();
    tampered.pop();
    tampered.push('A');
    assert!(manager.verify_jwt(&tampered).is_err());
}

#[test]
fn verify_rejects_wrong_secret() {
    let issuer = JwtManager::new("the right secret".to_owned());
    let other = JwtManager::new("a different secret".to_owned());
    let token = issuer.create_jwt_at(42, 1_000).unwrap();
    let result = other.verify_jwt(&token);
    assert!(matches!(result, Err(AuthError::JwtError(_))));
}

fn encode_raw_claims(secret: &str, claims: serde_json::Map<String, serde_json::Value>) -> String {
    let header = jsonwebtoken::Header::new(jsonwebtoken::Algorithm::HS256);
    let key = jsonwebtoken::EncodingKey::from_secret(secret.as_bytes());
    jsonwebtoken::encode(&header, &serde_json::Value::Object(claims), &key).unwrap()
}

#[test]
fn verify_rejects_subject_outside_i32_range() {
    let manager = JwtManager::new("secret".to_owned());
    let mut claims = serde_json::Map::new();
    claims.insert("sub".to_owned(), serde_json::Value::from(i64::MAX));
    claims.insert("exp".to_owned(), serde_json::Value::from(1_000_i64));
    let token = encode_raw_claims("secret", claims);
    let result = manager.verify_jwt(&token);
    assert!(matches!(result, Err(AuthError::InvalidToken)));
}

#[test]
fn verify_rejects_missing_subject_claim() {
    let manager = JwtManager::new("secret".to_owned());
    let mut claims = serde_json::Map::new();
    claims.insert("exp".to_owned(), serde_json::Value::from(1_000_i64));
    let token = encode_raw_claims("secret", claims);
    let result = manager.verify_jwt(&token);
    assert!(matches!(result, Err(AuthError::InvalidToken)));
}

#[test]
fn verify_rejects_garbage() {
    let manager = JwtManager::new("secret".to_owned());
    assert!(manager.verify_jwt("not a token at all").is_err());
}
