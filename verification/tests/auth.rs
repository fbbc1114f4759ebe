use rdp_remote::server_auth::AuthError;
use rdp_remote::device_auth::DeviceAuthManager;
use rdp_remote::server_auth::{AuthManager, TOKEN_LIFETIME_HOURS};

#[test]
fn test_register_and_verify() {
    let mut manager = DeviceAuthManager::new();
    manager.register_device("device-1".to_string(), "123456".to_string());

    assert!(manager.verify_password("device-1", "123456"));
    assert!(!manager.verify_password("device-1", "wrong"));
    assert!(!manager.verify_password("unknown", "123456"));
}

#[test]
fn test_generate_password() {
    let password = DeviceAuthManager::generate_password();
    assert_eq!(password.len(), 6);
    assert!(password.chars().all(|c| c.is_ascii_digit()));
}

#[test]
fn registering_again_replaces_password() {
    let mut manager = DeviceAuthManager::new();
    manager.register_device("d".to_string(), "111111".to_string());
    manager.register_device("e".to_string(), "222222".to_string());
    manager.register_device("d".to_string(), "333333".to_string());
    assert!(!manager.verify_password("d", "111111"));
    assert!(manager.verify_password("d", "333333"));
    assert!(manager.verify_password("e", "222222"));
}

#[test]
fn claims_expire_after_a_day() {
    let auth = AuthManager::new("test-secret");
    assert_eq!(auth.secret(), "test-secret");
    assert_eq!(auth.token_duration_hours(), TOKEN_LIFETIME_HOURS);
    let claims = auth.claims_at("device-123", 1_700_000_000);
    assert_eq!(claims.device_id, "device-123");
    assert_eq!(claims.iat, 1_700_000_000);
    assert_eq!(claims.exp, 1_700_000_000 + 24 * 3600);
    let fresh = auth.issue_claims("device-123");
    assert_eq!(fresh.exp, fresh.iat + 86_400);
    assert!(fresh.iat > 1_600_000_000);
}

#[test]
fn password_spells_the_draws() {
    assert_eq!(DeviceAuthManager::password_from_draws(&vec![1, 2, 3, 4, 5, 6]), "123456");
    assert_eq!(DeviceAuthManager::password_from_draws(&vec![0, 0, 9, 0, 7, 0]), "009070");
}

#[test]
fn test_generate_and_verify_token() {
    let auth = AuthManager::new("test-secret");
    let device_id = "device-123";

    let token = auth.generate_token(device_id).unwrap();
    let verified_id = auth.verify_token(&token).unwrap();

    assert_eq!(verified_id, device_id);
}

#[test]
fn test_invalid_token_fails() {
    let auth = AuthManager::new("test-secret");
    let result = auth.verify_token("invalid.token.here");
    assert!(result.is_err());
}

#[test]
fn test_wrong_secret_fails() {
    let auth1 = AuthManager::new("secret1");
    let auth2 = AuthManager::new("secret2");

    let token = auth1.generate_token("device-123").unwrap();
    let result = auth2.verify_token(&token);
    assert!(result.is_err());
}

#[test]
fn refused_token_is_invalid_token() {
    let auth = AuthManager::new("s");
    assert_eq!(auth.verify_token(""), Err(AuthError::InvalidToken));
}
