use jsonwebtoken::{decode, Algorithm, DecodingKey, Validation};
use note_service::clock::{time_of, unix_now};
use note_service::error::ServiceError;
use note_service::utils::jwt::{
    token_from_signing, Audience, Claims, JwtUtil, SECONDS_PER_MINUTE, TOKEN_LIFETIME_MINUTES,
};
use serde_json::Value;

fn claims_of(token: &str, secret: &str, audience: &str, check_expiry: bool) -> Value {
    let mut validation = Validation::new(Algorithm::HS256);
    validation.set_audience(&[audience]);
    validation.validate_exp = check_expiry;
    decode::<Value>(token, &DecodingKey::from_secret(secret.as_bytes()), &validation)
        .unwrap()
        .claims
}

#[test]
fn audiences_have_their_names() {
    assert_eq!(Audience::User.to_string(), "User");
    assert_eq!(Audience::Admin.to_string(), "Admin");
}

#[test]
fn claims_expire_after_their_lifetime() {
    let claims = Claims::new(Audience::Admin, 60, "bob".to_string(), 1_000);
    assert_eq!(
        claims,
        Claims {
            aud: "Admin".to_string(),
            exp: 4_600,
            iat: 1_000,
            iss: "system".to_string(),
            nbf: 1_000,
            sub: "bob".to_string(),
        }
    );
    let claims = Claims::new(Audience::User, 1, "".to_string(), 0);
    assert_eq!(claims.exp, 60);
    assert_eq!(claims.iat, 0);
    let claims = Claims::new(Audience::User, 0, "z".to_string(), 77);
    assert_eq!(claims.exp, 77);
    assert_eq!(claims.nbf, 77);
    let claims = Claims::new(Audience::User, 1, "edge".to_string(), u64::MAX - 60);
    assert_eq!(claims.exp, u64::MAX);
}

#[test]
fn the_lifetime_is_an_hour() {
    assert_eq!(TOKEN_LIFETIME_MINUTES, 60);
    assert_eq!(SECONDS_PER_MINUTE, 60);
}

#[test]
fn a_missing_secret_is_a_configuration_error() {
    assert!(matches!(JwtUtil::new(None), Err(ServiceError::ConfigurationError)));
    assert!(JwtUtil::new(Some("s".to_string())).is_ok());
    assert!(JwtUtil::new(Some("".to_string())).is_ok());
}

#[test]
fn a_token_for_alice_decodes_to_her_claims() {
    let issuer = JwtUtil::new(Some("top-secret".to_string())).unwrap();
    let before = unix_now();
    let token = issuer.issue_new("alice".to_string(), Audience::User).unwrap();
    let after = unix_now();
    let claims = claims_of(&token, "top-secret", "User", true);
    assert_eq!(claims["sub"], "alice");
    assert_eq!(claims["aud"], "User");
    assert_eq!(claims["iss"], "system");
    let iat = claims["iat"].as_u64().unwrap();
    let exp = claims["exp"].as_u64().unwrap();
    let nbf = claims["nbf"].as_u64().unwrap();
    assert!(exp > iat);
    assert_eq!(exp, iat + 3_600);
    assert_eq!(nbf, iat);
    assert!(before <= iat && iat <= after);
}

#[test]
fn a_token_issued_at_a_given_time_carries_that_time() {
    let issuer = JwtUtil::new(Some("k".to_string())).unwrap();
    let token = issuer.issue_at("carol \"c\"".to_string(), Audience::Admin, 1_000).unwrap();
    assert_eq!(token.split('.').count(), 3);
    let claims = claims_of(&token, "k", "Admin", false);
    assert_eq!(claims["sub"], "carol \"c\"");
    assert_eq!(claims["aud"], "Admin");
    assert_eq!(claims["iss"], "system");
    assert_eq!(claims["iat"], 1_000);
    assert_eq!(claims["nbf"], 1_000);
    assert_eq!(claims["exp"], 4_600);
    assert_eq!(claims.as_object().unwrap().len(), 6);
}

#[test]
fn a_token_depends_on_the_claims_and_the_secret_alone() {
    let issuer = JwtUtil::new(Some("k".to_string())).unwrap();
    let other = JwtUtil::new(Some("l".to_string())).unwrap();
    let token = issuer.issue_at("dave".to_string(), Audience::User, 5).unwrap();
    assert_eq!(issuer.issue_at("dave".to_string(), Audience::User, 5).unwrap(), token);
    assert_ne!(issuer.issue_at("dave".to_string(), Audience::User, 6).unwrap(), token);
    assert_ne!(issuer.issue_at("dave".to_string(), Audience::Admin, 5).unwrap(), token);
    assert_ne!(issuer.issue_at("erin".to_string(), Audience::User, 5).unwrap(), token);
    assert_ne!(other.issue_at("dave".to_string(), Audience::User, 5).unwrap(), token);
    let mut validation = Validation::new(Algorithm::HS256);
    validation.set_audience(&["User"]);
    validation.validate_exp = false;
    assert!(decode::<Value>(&token, &DecodingKey::from_secret(b"l"), &validation).is_err());
}

#[test]
fn an_expiry_beyond_the_clock_fails_the_signing() {
    let issuer = JwtUtil::new(Some("k".to_string())).unwrap();
    assert_eq!(
        issuer.issue_at("x".to_string(), Audience::User, u64::MAX),
        Err(ServiceError::SigningError)
    );
    assert_eq!(
        issuer.issue_at("x".to_string(), Audience::User, u64::MAX - 3_599),
        Err(ServiceError::SigningError)
    );
    assert!(issuer.issue_at("x".to_string(), Audience::User, u64::MAX - 3_600).is_ok());
}

#[test]
fn a_signing_failure_is_a_signing_error() {
    let failed = jsonwebtoken::errors::Error::from(jsonwebtoken::errors::ErrorKind::InvalidKeyFormat);
    assert_eq!(token_from_signing(Err(failed)), Err(ServiceError::SigningError));
    assert_eq!(token_from_signing(Ok("a.b.c".to_string())), Ok("a.b.c".to_string()));
}

#[test]
fn a_clock_before_the_epoch_reads_as_the_epoch() {
    assert_eq!(time_of(None), 0);
    assert_eq!(time_of(Some(0)), 0);
    assert_eq!(time_of(Some(1_700_000_000)), 1_700_000_000);
    assert!(unix_now() > 1_600_000_000);
}

#[test]
fn a_token_for_alice_at_a_given_time_is_owed_and_decodes() {
    let issuer = JwtUtil::new(Some("k".to_string())).unwrap();
    let token = issuer.issue_at("alice".to_string(), Audience::User, 1_000);
    assert!(token.is_ok());
    let claims = claims_of(&token.unwrap(), "k", "User", false);
    assert_eq!(claims["sub"], "alice");
    assert_eq!(claims["aud"], "User");
    assert_eq!(claims["iat"], 1_000);
    assert_eq!(claims["nbf"], 1_000);
    assert_eq!(claims["exp"], 4_600);
}
