use archive_auth::store::UserStore;
use archive_auth::user::{GUser, User};

#[test]
fn new_user_assigns_sequential_ids() {
    let mut s = UserStore::new();
    let a = s.new_user(User::new("alice".to_string(), "hash-a".to_string())).unwrap();
    let b = s.new_user(User::new("bob".to_string(), "hash-b".to_string())).unwrap();
    assert_eq!(a, 1);
    assert_eq!(b, 2);
    let alice = s.get_user_by_username(&"alice".to_string()).unwrap();
    assert_eq!(alice.get_id(), 1);
    assert_eq!(alice.get_password_hash(), "hash-a");
}

#[test]
fn new_user_rejects_duplicate_username() {
    let mut s = UserStore::new();
    s.new_user(User::new("alice".to_string(), "hash-a".to_string())).unwrap();
    let e = s.new_user(User::new("alice".to_string(), "hash-b".to_string())).unwrap_err();
    assert_eq!(e.get_message(), "Failed to insert new user");
    // the first record is untouched
    let alice = s.get_user_by_username(&"alice".to_string()).unwrap();
    assert_eq!(alice.get_password_hash(), "hash-a");
}

#[test]
fn lookup_by_unknown_key_fails() {
    let s = UserStore::new();
    assert_eq!(
        s.get_user_by_username(&"alice".to_string()).unwrap_err().get_message(),
        "User not found"
    );
    assert_eq!(s.get_user_by_id(7).unwrap_err().get_message(), "User not found");
}

#[test]
fn update_user_changes_fields() {
    let mut s = UserStore::new();
    let id = s.new_user(User::new("alice".to_string(), "hash-a".to_string())).unwrap();
    s.update_user(id, "alicia".to_string(), "hash-c".to_string()).unwrap();
    let u = s.get_user_by_id(id).unwrap();
    assert_eq!(u.get_username(), "alicia");
    assert_eq!(u.get_password_hash(), "hash-c");
    assert!(s.get_user_by_username(&"alice".to_string()).is_err());
}

#[test]
fn update_user_rejects_taken_username() {
    let mut s = UserStore::new();
    let a = s.new_user(User::new("alice".to_string(), "hash-a".to_string())).unwrap();
    s.new_user(User::new("bob".to_string(), "hash-b".to_string())).unwrap();
    assert!(s.update_user(a, "bob".to_string(), "hash-c".to_string()).is_err());
    assert!(s.update_user(99, "carol".to_string(), "hash-c".to_string()).is_err());
}

#[test]
fn delate_user_removes_record() {
    let mut s = UserStore::new();
    let a = s.new_user(User::new("alice".to_string(), "hash-a".to_string())).unwrap();
    s.delate_user(a).unwrap();
    assert!(s.get_user_by_id(a).is_err());
    // deleting an unknown id is not an error
    s.delate_user(a).unwrap();
    // the freed username may be registered again, under a fresh id
    let a2 = s.new_user(User::new("alice".to_string(), "hash-d".to_string())).unwrap();
    assert_eq!(a2, 2);
}

#[test]
fn get_all_users_returns_snapshots_in_order() {
    let mut s = UserStore::new();
    s.new_user(User::new("alice".to_string(), "hash-a".to_string())).unwrap();
    s.new_user(User::new("bob".to_string(), "hash-b".to_string())).unwrap();
    let all = s.get_all_users().unwrap();
    assert_eq!(all.len(), 2);
    assert_eq!(all[0].get_username(), "alice");
    assert_eq!(all[1].get_username(), "bob");
}

#[test]
fn user_accessors_roundtrip() {
    let mut u = User::new("alice".to_string(), "hash-a".to_string());
    assert_eq!(u.get_id(), -1);
    assert_eq!(u.get_created_at(), None);
    assert!(u.get_guser().is_none());
    assert!(u.get_session_token().is_none());
    u.set_username("alicia".to_string());
    u.set_password_hash("hash-b".to_string());
    u.set_session_token("token-1".to_string());
    u.set_guser(GUser::new("gtok".to_string(), "alice g".to_string(), "http://pfp".to_string()));
    assert_eq!(u.get_username(), "alicia");
    assert_eq!(u.get_password_hash(), "hash-b");
    assert_eq!(u.get_session_token(), Some("token-1".to_string()));
    let g = u.get_guser().unwrap();
    assert_eq!(g.get_auth_token(), "gtok");
    assert_eq!(g.get_name(), "alice g");
    assert_eq!(g.get_pfp_url(), "http://pfp");
}

#[test]
fn guser_accessors_roundtrip() {
    let mut g = GUser::new("tok".to_string(), "name".to_string(), "url".to_string());
    g.set_auth_token("tok2".to_string());
    g.set_name("name2".to_string());
    g.set_pfp_url("url2".to_string());
    assert_eq!(g.get_auth_token(), "tok2");
    assert_eq!(g.get_name(), "name2");
    assert_eq!(g.get_pfp_url(), "url2");
}
