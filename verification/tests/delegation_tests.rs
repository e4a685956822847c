use archive_auth::delegation::OAuthParameters;
use archive_auth::manager::UserManager;
use archive_auth::store::UserStore;

fn params() -> OAuthParameters {
    OAuthParameters {
        client_id: "client-id-123".to_string(),
        project_id: "project".to_string(),
        auth_uri: "https://accounts.google.com/o/oauth2/auth".to_string(),
        token_uri: "https://oauth2.googleapis.com/token".to_string(),
        auth_provider_x509_cert_url: "https://www.googleapis.com/oauth2/v1/certs".to_string(),
        client_secret: "test-client-secret".to_string(),
        redirect_uris: vec!["http://localhost:8080/api/users/oauth/callback".to_string()],
    }
}

fn logged_in_manager() -> (UserManager, String) {
    let mut m = UserManager::new(
        b"test-signing-secret".to_vec(),
        params(),
        "http://localhost:8080/api/users/oauth/callback".to_string(),
        UserStore::new(),
    );
    m.register("alice".to_string(), "longpassword".to_string()).unwrap();
    let t = m.login(&"alice".to_string(), &"longpassword".to_string(), 1000).unwrap();
    (m, format!("Bearer {}", t))
}

#[test]
fn begin_delegation_requires_authentication() {
    let (mut m, _h) = logged_in_manager();
    let e = m.begin_delegation(None, 1000).unwrap_err();
    assert_eq!(e.get_message(), "No 'authorization' header");
    let e = m
        .begin_delegation(Some(&"Bearer bogus.token.value".to_string()), 1000)
        .unwrap_err();
    assert_eq!(e.status_code(), 401);
}

#[test]
fn begin_delegation_builds_url_with_state_and_challenge() {
    let (mut m, h) = logged_in_manager();
    let (url, state) = m.begin_delegation(Some(&h), 1000).unwrap();
    assert_eq!(state.len(), 32);
    assert!(state.chars().all(|c| c.is_ascii_alphanumeric()));
    assert!(url.starts_with("https://accounts.google.com/o/oauth2/auth?"));
    assert!(url.contains(&format!("state={}", state)));
    assert!(url.contains("code_challenge="));
    assert!(url.contains("code_challenge_method=S256"));
    assert!(url.contains("client_id=client-id-123"));
    assert!(url.contains("photoslibrary.readonly"));
}

#[test]
fn take_flow_is_single_use() {
    let (mut m, h) = logged_in_manager();
    let (_url, state) = m.begin_delegation(Some(&h), 1000).unwrap();
    let (uid, verifier) = m.take_flow(&state).unwrap();
    assert_eq!(uid, 1);
    assert!(!verifier.is_empty());
    let e = m.take_flow(&state).unwrap_err();
    assert_eq!(e.get_message(), "No flow for state");
    assert_eq!(e.status_code(), 401);
}

#[test]
fn second_begin_supersedes_first_flow() {
    let (mut m, h) = logged_in_manager();
    let (_u1, s1) = m.begin_delegation(Some(&h), 1000).unwrap();
    let (_u2, s2) = m.begin_delegation(Some(&h), 1001).unwrap();
    assert_ne!(s1, s2);
    // the first state is gone
    let e = m.take_flow(&s1).unwrap_err();
    assert_eq!(e.get_message(), "No flow for state");
    // exactly the second remains, and it is this user's
    let (uid, _verifier) = m.take_flow(&s2).unwrap();
    assert_eq!(uid, 1);
}

#[test]
fn sweep_removes_only_stale_flows() {
    let (mut m, h) = logged_in_manager();
    let (_u, s) = m.begin_delegation(Some(&h), 1000).unwrap();
    // at exactly the TTL the flow is not yet stale
    m.sweep_expired_flows(1000 + 600);
    let (uid, _v) = m.take_flow(&s).unwrap();
    assert_eq!(uid, 1);
    // a second flow, then swept one second past its TTL
    let (_u2, s2) = m.begin_delegation(Some(&h), 2000).unwrap();
    m.sweep_expired_flows(2000 + 601);
    let e = m.take_flow(&s2).unwrap_err();
    assert_eq!(e.get_message(), "No flow for state");
}

#[test]
fn finish_delegation_writes_provider_token() {
    let (mut m, h) = logged_in_manager();
    let (_u, state) = m.begin_delegation(Some(&h), 1000).unwrap();
    let (uid, _verifier) = m.take_flow(&state).unwrap();
    m.finish_delegation(uid, Some("provider-access-token".to_string())).unwrap();
    let users = m.get_active_users();
    assert_eq!(users.len(), 1);
    let g = users[0].get_guser().expect("provider account must be set");
    assert_eq!(g.get_auth_token(), "provider-access-token");
    assert_eq!(g.get_name(), "alice");
}

#[test]
fn finish_delegation_failure_mutates_nothing() {
    let (mut m, h) = logged_in_manager();
    let (_u, state) = m.begin_delegation(Some(&h), 1000).unwrap();
    let (uid, _verifier) = m.take_flow(&state).unwrap();
    let e = m.finish_delegation(uid, None).unwrap_err();
    assert_eq!(e.get_message(), "Provider token exchange failed");
    assert_eq!(e.status_code(), 501);
    assert!(m.get_active_users()[0].get_guser().is_none());
}

#[test]
fn finish_delegation_for_inactive_user_fails() {
    let (mut m, _h) = logged_in_manager();
    let e = m.finish_delegation(999, Some("tok".to_string())).unwrap_err();
    assert_eq!(e.get_message(), "User is not active");
    assert_eq!(e.status_code(), 401);
}

#[test]
fn begin_delegation_with_bad_provider_endpoint_is_upstream_error() {
    let mut bad = params();
    bad.auth_uri = "not a url".to_string();
    let mut m = UserManager::new(
        b"test-signing-secret".to_vec(),
        bad,
        "http://localhost:8080/api/users/oauth/callback".to_string(),
        UserStore::new(),
    );
    m.register("alice".to_string(), "longpassword".to_string()).unwrap();
    let t = m.login(&"alice".to_string(), &"longpassword".to_string(), 1000).unwrap();
    let h = format!("Bearer {}", t);
    let e = m.begin_delegation(Some(&h), 1000).unwrap_err();
    assert_eq!(e.get_message(), "Failed to create new oauth flow");
    assert_eq!(e.status_code(), 500);
}
