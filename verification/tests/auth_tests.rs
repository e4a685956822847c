use archive_auth::delegation::OAuthParameters;
use archive_auth::errors::UserManagerError;
use archive_auth::manager::UserManager;
use archive_auth::store::UserStore;

fn test_params() -> OAuthParameters {
    OAuthParameters {
        client_id: "client-id-123".to_string(),
        project_id: "project".to_string(),
        auth_uri: "https://accounts.google.com/o/oauth2/auth".to_string(),
        token_uri: "https://oauth2.googleapis.com/token".to_string(),
        auth_provider_x509_cert_url: "https://www.googleapis.com/oauth2/v1/certs".to_string(),
        client_secret: "test-client-secret".to_string(),
        redirect_uris: vec!["http://localhost:8080/api/users/oauth/callback".to_string()],
    }
}

fn test_manager() -> UserManager {
    UserManager::new(
        b"test-signing-secret".to_vec(),
        test_params(),
        "http://localhost:8080/api/users/oauth/callback".to_string(),
        UserStore::new(),
    )
}

fn bearer(token: &str) -> String {
    format!("Bearer {}", token)
}

#[test]
fn register_login_authenticate_scenario() {
    let mut m = test_manager();
    let r = m.register("alice".to_string(), "longpassword".to_string());
    assert!(r.is_ok());
    let t1 = m
        .login(&"alice".to_string(), &"longpassword".to_string(), 1000)
        .expect("login after register must succeed");
    let h1 = bearer(&t1);
    let id = m.validate_request(Some(&h1), 1000).expect("fresh token must authenticate");
    let t2 = m
        .login(&"alice".to_string(), &"longpassword".to_string(), 2000)
        .expect("second login must succeed");
    assert_ne!(t1, t2);
    let e = m.validate_request(Some(&h1), 2000).unwrap_err();
    assert_eq!(e.status_code(), 401);
    let h2 = bearer(&t2);
    assert_eq!(m.validate_request(Some(&h2), 2000).unwrap(), id);
}

#[test]
fn register_rejects_short_username() {
    let mut m = test_manager();
    let e = m.register("ab".to_string(), "longpassword".to_string()).unwrap_err();
    assert!(matches!(e, UserManagerError::ValidationError(_)));
    assert_eq!(e.get_message(), "Username is too short");
    assert_eq!(e.status_code(), 400);
}

#[test]
fn register_rejects_short_password() {
    let mut m = test_manager();
    let e = m.register("alice".to_string(), "short".to_string()).unwrap_err();
    assert!(matches!(e, UserManagerError::ValidationError(_)));
    assert_eq!(e.get_message(), "Password is too short");
    assert_eq!(e.status_code(), 400);
}

#[test]
fn register_rejects_duplicate_username() {
    let mut m = test_manager();
    m.register("alice".to_string(), "longpassword".to_string()).unwrap();
    let e = m.register("alice".to_string(), "otherpassword".to_string()).unwrap_err();
    assert!(matches!(e, UserManagerError::ConflictError(_)));
    assert_eq!(e.get_message(), "User alice already exists");
    assert_eq!(e.status_code(), 500);
}

#[test]
fn login_failures_are_indistinguishable() {
    let mut m = test_manager();
    m.register("alice".to_string(), "longpassword".to_string()).unwrap();
    let wrong_password = m
        .login(&"alice".to_string(), &"badpassword".to_string(), 1000)
        .unwrap_err();
    let unknown_user = m
        .login(&"nobody".to_string(), &"longpassword".to_string(), 1000)
        .unwrap_err();
    assert!(matches!(wrong_password, UserManagerError::AuthenticationError(_)));
    assert!(matches!(unknown_user, UserManagerError::AuthenticationError(_)));
    assert_eq!(wrong_password.get_message(), unknown_user.get_message());
    assert_eq!(wrong_password.status_code(), unknown_user.status_code());
    assert_eq!(wrong_password.status_code(), 401);
}

#[test]
fn expired_token_is_rejected_even_if_cached() {
    let mut m = test_manager();
    m.register("alice".to_string(), "longpassword".to_string()).unwrap();
    let t = m.login(&"alice".to_string(), &"longpassword".to_string(), 1000).unwrap();
    let h = bearer(&t);
    // exp is 1000 + 86400; on the boundary the token is still accepted
    assert!(m.validate_request(Some(&h), 1000 + 86400).is_ok());
    // one second past it is not, though it is still the cached token
    let e = m.validate_request(Some(&h), 1000 + 86401).unwrap_err();
    assert_eq!(e.status_code(), 401);
}

#[test]
fn missing_and_malformed_authorization_headers() {
    let m = test_manager();
    let e = m.validate_request(None, 1000).unwrap_err();
    assert_eq!(e.get_message(), "No 'authorization' header");
    let e = m.validate_request(Some(&"Token abc".to_string()), 1000).unwrap_err();
    assert_eq!(e.get_message(), "Invalid header format");
    let e = m.validate_request(Some(&"Bear".to_string()), 1000).unwrap_err();
    assert_eq!(e.get_message(), "Invalid header format");
}

#[test]
fn garbage_token_is_a_token_error() {
    let m = test_manager();
    let r = m.validate_token(&"not.a.token".to_string(), 1000);
    let e = r.unwrap_err();
    assert!(matches!(e, UserManagerError::TokenError(_)));
    assert_eq!(e.get_message(), "Invalid JWT Token");
}

#[test]
fn token_signed_under_other_secret_is_rejected() {
    let mut m1 = test_manager();
    m1.register("alice".to_string(), "longpassword".to_string()).unwrap();
    let t = m1.login(&"alice".to_string(), &"longpassword".to_string(), 1000).unwrap();
    let m2 = UserManager::new(
        b"a-different-secret".to_vec(),
        test_params(),
        "http://localhost:8080/api/users/oauth/callback".to_string(),
        UserStore::new(),
    );
    assert!(m2.validate_token(&t, 1000).is_err());
}

#[test]
fn valid_token_without_cached_session_is_not_current() {
    let mut m = test_manager();
    m.register("alice".to_string(), "longpassword".to_string()).unwrap();
    let t = m.login(&"alice".to_string(), &"longpassword".to_string(), 1000).unwrap();
    // validate_token reports the decoded id, and whether the token is current
    let (valid, id) = m.validate_token(&t, 1000).unwrap();
    assert!(valid);
    assert_eq!(id, 1);
    // a fresh manager under the same secret decodes it but has no session
    let m2 = UserManager::new(
        b"test-signing-secret".to_vec(),
        test_params(),
        "http://localhost:8080/api/users/oauth/callback".to_string(),
        UserStore::new(),
    );
    let (valid2, id2) = m2.validate_token(&t, 1000).unwrap();
    assert!(!valid2);
    assert_eq!(id2, 1);
}

#[test]
fn password_verification_fails_closed() {
    let p = "longpassword".to_string();
    let h = UserManager::hash_password(&p).expect("hashing must succeed");
    assert!(UserManager::verify_password(&p, &h));
    assert!(!UserManager::verify_password(&"otherpassword".to_string(), &h));
    assert!(!UserManager::verify_password(&p, &"not a bcrypt hash".to_string()));
}

#[test]
fn credential_lengths_count_characters() {
    let mut m = test_manager();
    // two characters, even when multi-byte, are too short a username
    let e = m.register("añ".to_string(), "longpassword".to_string()).unwrap_err();
    assert_eq!(e.get_message(), "Username is too short");
    // three characters are enough
    assert!(m.register("añc".to_string(), "longpassword".to_string()).is_ok());
}
