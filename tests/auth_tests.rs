use rust_openfire_auth::auth::{AuthManager, AuthResult, AuthState, Credentials, Uuid};
use rust_openfire_auth::config::Config;
use rust_openfire_auth::error::OpenFireError;

#[test]
fn test_auth_manager_creation() {
    let config = Config::default();
    let auth_manager = AuthManager::new(config);
    assert!(auth_manager.is_ok());
}

#[test]
fn test_credentials_validation() {
    let valid_creds = Credentials::new("testuser".to_string(), "testpass".to_string());
    assert!(valid_creds.validate().is_ok());

    let invalid_creds = Credentials::new("".to_string(), "testpass".to_string());
    assert!(invalid_creds.validate().is_err());

    let invalid_creds2 = Credentials::new("test user".to_string(), "testpass".to_string());
    assert!(invalid_creds2.validate().is_err());
}

#[test]
fn test_authentication_success() {
    let config = Config::default();
    let mut auth_manager = AuthManager::new(config).unwrap();

    let creds = Credentials::new("testuser".to_string(), "testpass".to_string());
    let result = auth_manager.authenticate(creds, 500).unwrap();

    assert!(result.success);
    assert!(auth_manager.is_authenticated());
}

#[test]
fn test_authentication_failure() {
    let config = Config::default();
    let mut auth_manager = AuthManager::new(config).unwrap();

    let creds = Credentials::new("invalid".to_string(), "testpass".to_string());
    let result = auth_manager.authenticate(creds, 500).unwrap();

    assert!(!result.success);
    assert!(!auth_manager.is_authenticated());
}

#[test]
fn credentials_with_at_sign_or_empty_password_are_rejected() {
    let at = Credentials::new("a@b".to_string(), "pw".to_string());
    match at.validate() {
        Err(OpenFireError::InvalidCredentials { message }) => {
            assert_eq!(message, "Username contains invalid characters")
        }
        other => panic!("unexpected {:?}", other),
    }
    let nopw = Credentials::new("alice".to_string(), "".to_string());
    match nopw.validate() {
        Err(OpenFireError::InvalidCredentials { message }) => {
            assert_eq!(message, "Password cannot be empty")
        }
        other => panic!("unexpected {:?}", other),
    }
    let empty = Credentials::new("".to_string(), "".to_string());
    match empty.validate() {
        Err(OpenFireError::InvalidCredentials { message }) => {
            assert_eq!(message, "Username cannot be empty")
        }
        other => panic!("unexpected {:?}", other),
    }
}

#[test]
fn jid_uses_own_domain_before_default() {
    let plain = Credentials::new("bob".to_string(), "pw".to_string());
    assert_eq!(plain.get_jid("localhost"), "bob@localhost");
    let own = Credentials::with_domain("bob".to_string(), "pw".to_string(), "corp".to_string());
    assert_eq!(own.get_jid("localhost"), "bob@corp");
}

#[test]
fn scenario_success_gives_full_jid_of_configured_domain() {
    let config = Config::new("xmpp.example".to_string(), "example.org".to_string());
    let mut m = AuthManager::new(config).unwrap();
    let creds = Credentials::new("testuser".to_string(), "testpass".to_string());
    let result = m.authenticate(creds, 120).unwrap();
    assert!(result.success);
    assert_eq!(result.full_jid, Some("testuser@example.org".to_string()));
    assert_eq!(result.message, "Authentication successful");
    assert_eq!(result.auth_time_ms, 120);
    assert!(result.session_id.unwrap().starts_with("session_uuid-"));
    assert!(matches!(m.get_state(), AuthState::Authenticated));
}

#[test]
fn scenario_invalid_username_is_a_failed_result() {
    let mut m = AuthManager::new(Config::default()).unwrap();
    let creds = Credentials::new("invalid".to_string(), "testpass".to_string());
    let result = m.authenticate(creds, 10).unwrap();
    assert!(!result.success);
    assert!(result.message.contains("Invalid username"));
    assert_eq!(
        result.message,
        "Authentication failed: Authentication failed: Invalid username"
    );
    assert!(result.full_jid.is_none());
    match m.get_state() {
        AuthState::Failed(why) => assert_eq!(why, &result.message),
        other => panic!("unexpected {:?}", other),
    }
}

#[test]
fn wrong_password_and_timeout_fail_the_attempt() {
    let mut m = AuthManager::new(Config::default()).unwrap();
    let wrong = Credentials::new("alice".to_string(), "wrong".to_string());
    let r = m.authenticate(wrong, 10).unwrap();
    assert!(!r.success);
    assert_eq!(r.message, "Authentication failed: Authentication failed: Invalid password");

    let slow = Credentials::new("alice".to_string(), "secret".to_string());
    let r = m.authenticate(slow, 10_001).unwrap();
    assert!(!r.success);
    assert_eq!(
        r.message,
        "Authentication failed: Timeout error: operation timed out after 10 seconds"
    );
    assert!(matches!(m.get_state(), AuthState::Failed(_)));

    let in_time = Credentials::new("alice".to_string(), "secret".to_string());
    let r = m.authenticate(in_time, 10_000).unwrap();
    assert!(r.success);
}

#[test]
fn malformed_credentials_leave_state_alone() {
    let mut m = AuthManager::new(Config::default()).unwrap();
    let bad = Credentials::new("a b".to_string(), "pw".to_string());
    assert!(matches!(
        m.authenticate(bad, 0),
        Err(OpenFireError::InvalidCredentials { .. })
    ));
    assert!(matches!(m.get_state(), AuthState::Disconnected));
}

#[test]
fn disconnect_resets_state() {
    let mut m = AuthManager::new(Config::default()).unwrap();
    let creds = Credentials::new("testuser".to_string(), "testpass".to_string());
    m.authenticate(creds, 1).unwrap();
    assert!(m.disconnect().is_ok());
    assert!(matches!(m.get_state(), AuthState::Disconnected));
}

#[test]
fn manager_rejects_invalid_config() {
    let mut config = Config::default();
    config.domain = String::new();
    match AuthManager::new(config) {
        Err(OpenFireError::ConfigError { message }) => assert_eq!(message, "Domain cannot be empty"),
        _ => panic!("expected a configuration error"),
    }
}

#[test]
fn server_info_text() {
    let m = AuthManager::new(Config::default()).unwrap();
    assert_eq!(m.get_server_info(), "localhost:5222 (domain: localhost)");
}

#[test]
fn result_constructors() {
    let ok = AuthResult::success("a@b".to_string(), None, 7);
    assert!(ok.success);
    assert_eq!(ok.message, "Authentication successful");
    assert_eq!(ok.full_jid, Some("a@b".to_string()));
    let bad = AuthResult::failure("nope".to_string(), 9);
    assert!(!bad.success);
    assert_eq!(bad.message, "nope");
    assert_eq!(bad.auth_time_ms, 9);
}

#[test]
fn uuid_text_is_hex_after_prefix() {
    let u = Uuid::new_v4();
    assert!(u.0.starts_with("uuid-"));
    assert!(u.0.len() > 5);
    assert!(u.0[5..].chars().all(|c| c.is_ascii_hexdigit() && !c.is_ascii_uppercase()));
}
