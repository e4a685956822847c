use archive_auth::config::Config;
use archive_auth::errors::{DatabaseError, UserManagerError};
use archive_auth::routes::{route_users_get, route_users_post, UserApiRoute};

#[test]
fn post_routes_dispatch_by_last_segment() {
    assert_eq!(route_users_post(&"/api/users/new".to_string()), UserApiRoute::NewUser);
    assert_eq!(route_users_post(&"/api/users/delete".to_string()), UserApiRoute::DeleteUser);
    assert_eq!(route_users_post(&"/api/users/modify".to_string()), UserApiRoute::ModifyUser);
    assert_eq!(route_users_post(&"/api/users/login".to_string()), UserApiRoute::Login);
    assert_eq!(route_users_post(&"/api/users/other".to_string()), UserApiRoute::NotFound);
    assert_eq!(route_users_post(&"".to_string()), UserApiRoute::NotFound);
}

#[test]
fn get_routes_dispatch_by_trailing_segments() {
    assert_eq!(
        route_users_get(&"/api/users/validate".to_string()),
        UserApiRoute::ValidateToken
    );
    assert_eq!(route_users_get(&"/api/users/oauth/url".to_string()), UserApiRoute::OAuthUrl);
    assert_eq!(
        route_users_get(&"/api/users/oauth/callback".to_string()),
        UserApiRoute::OAuthCallback
    );
    assert_eq!(route_users_get(&"/api/users/oauth/other".to_string()), UserApiRoute::NotFound);
}

#[test]
fn default_config_values() {
    let c = Config::default();
    assert_eq!(c.server.port, 8080);
    assert_eq!(c.server.content_dir, "html");
    assert_eq!(c.server.client_secret_path, "secret.json");
    assert!(c.server.compression.zstd && c.server.compression.br && c.server.compression.gzip);
    assert_eq!(c.database.ip, "127.0.0.1");
    assert_eq!(c.database.port, 5432);
    assert_eq!(c.database.timeout, 5);
    assert_eq!(c.database.dbname, "photoarchiver");
    assert_eq!(c.auth.jwt_secret, "changeme");
}

#[test]
fn error_messages_and_status_codes() {
    let e = UserManagerError::TokenError("t".to_string());
    assert_eq!(e.get_message(), "t");
    assert_eq!(e.status_code(), 401);
    let e = UserManagerError::AuthenticationError("a".to_string());
    assert_eq!(e.status_code(), 401);
    let e = UserManagerError::ValidationError("v".to_string());
    assert_eq!(e.status_code(), 400);
    let e = UserManagerError::ConflictError("c".to_string());
    assert_eq!(e.status_code(), 500);
    let e = UserManagerError::DelegationError("d".to_string());
    assert_eq!(e.status_code(), 401);
    let e = UserManagerError::ExchangeError("x".to_string());
    assert_eq!(e.status_code(), 501);
    let e = UserManagerError::UpstreamError("u".to_string());
    assert_eq!(e.status_code(), 500);
    let d = DatabaseError::new("db down".to_string());
    assert_eq!(d.get_message(), "db down");
}
