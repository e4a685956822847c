//! Session/identity manager: registration, login, request authentication,
//! the active-session cache, and ownership of the delegation flow engine.
//!
//! The manager holds the process-wide signing secret and provider
//! credentials injected at construction, the user store, the active-session
//! table keyed by user id, and the pending-flow table keyed by CSRF state.
//! At most one session token is valid per user at a time: a login overwrites
//! the cached entry, so an earlier token for the same user no longer matches
//! the cache and fails validation even while cryptographically well-formed
//! and unexpired.

use vstd::prelude::*;
use vstd::string::StringExecFns;

use crate::delegation::{build_authorization_url, find_flow_by_state, find_flow_by_user,
    has_flow_for_user, has_flow_state, flow_state_index, flow_user_index, new_pkce_verifier,
    provider_urls_parse, random_state, unique_flow_states, unique_flow_users, auth_url_of,
    OAuthFlow, OAuthParameters, PendingFlow, PendingFlowView};
use crate::errors::UserManagerError;
use crate::hashing::bcrypt_accepts;
use crate::store::{find_user_by_id, find_user_by_name, has_user_id, has_username, unique_ids,
    user_id_index, UserStore};
use crate::token::{sign_claims, signed_token_of, token_claims_of, verify_claims};
use crate::user::{GUser, GUserView, User, UserView};

verus! {

/// Session tokens expire this many seconds after they are issued (24 hours).
pub const SESSION_TTL_SECS: i64 = 86400;

/// Pending delegation flows strictly older than this are swept (10 minutes).
pub const FLOW_TTL_SECS: i64 = 600;

/// The interval on which the background sweep runs (1 minute).
pub const SWEEP_INTERVAL_SECS: i64 = 60;

/// The access scope requested from the resource provider.
pub fn oauth_scope() -> (r: &'static str)
    ensures
        r@ == "https://www.googleapis.com/auth/photoslibrary.readonly"@,
{
    "https://www.googleapis.com/auth/photoslibrary.readonly"
}

/// Mathematical view of the configuration injected at construction.
pub ghost struct ManagerConfigView {
    pub jwt_secret: Seq<u8>,
    pub client_id: Seq<char>,
    pub client_secret: Seq<char>,
    pub auth_uri: Seq<char>,
    pub token_uri: Seq<char>,
    pub redirect_uri: Seq<char>,
}

/// The session/identity manager.
pub struct UserManager {
    jwt_secret: Vec<u8>,
    oauth_params: OAuthParameters,
    redirect_uri: String,
    database: UserStore,
    active_users: Vec<User>,
    oauth_flows: Vec<PendingFlow>,
}

/// The bearer token carried by an `authorization` header value, if the value
/// has the required `Bearer <token>` form.
pub open spec fn spec_bearer_token(header: Seq<char>) -> Option<Seq<char>> {
    if header.len() >= 7 && header.subrange(0, 7) == "Bearer "@ {
        Some(header.subrange(7, header.len() as int))
    } else {
        None
    }
}

impl UserManager {
    /// The signing secret: the `jwt_secret` part of the configuration, so
    /// every operation that leaves `spec_config()` unchanged leaves the
    /// secret unchanged too.
    pub open spec fn spec_secret(&self) -> Seq<u8> {
        self.spec_config().jwt_secret
    }

    /// The configuration injected at construction.
    pub closed spec fn spec_config(&self) -> ManagerConfigView {
        ManagerConfigView {
            jwt_secret: self.jwt_secret@,
            client_id: self.oauth_params.client_id@,
            client_secret: self.oauth_params.client_secret@,
            auth_uri: self.oauth_params.auth_uri@,
            token_uri: self.oauth_params.token_uri@,
            redirect_uri: self.redirect_uri@,
        }
    }

    /// The user store.
    pub closed spec fn spec_database(&self) -> UserStore {
        self.database
    }

    /// The persisted user records.
    pub open spec fn users(&self) -> Seq<UserView> {
        self.spec_database()@
    }

    /// The active-session table: one cached record per logged-in user.
    pub closed spec fn sessions(&self) -> Seq<UserView> {
        Seq::new(self.active_users@.len(), |i: int| self.active_users@[i]@)
    }

    /// The pending-flow table: one entry per outstanding handshake.
    pub closed spec fn flows(&self) -> Seq<PendingFlowView> {
        Seq::new(self.oauth_flows@.len(), |i: int| self.oauth_flows@[i]@)
    }

    /// Well-formedness: the store is well-formed, active sessions are keyed
    /// by distinct user ids, pending flows are keyed by distinct states and
    /// belong to distinct users, and flow timestamps are non-negative.
    pub open spec fn wf(&self) -> bool {
        &&& self.spec_database().wf()
        &&& unique_ids(self.sessions())
        &&& unique_flow_states(self.flows())
        &&& unique_flow_users(self.flows())
        &&& forall|i: int|
            0 <= i < self.flows().len() ==> (#[trigger] self.flows()[i]).created_at >= 0
    }

    /// A manager over the given store, with the signing secret and provider
    /// credentials injected rather than read ambiently. The session and flow
    /// tables start empty; the background sweep is driven by the embedding
    /// process calling `sweep_expired_flows` on its interval.
    pub fn new(
        jwt_secret: Vec<u8>,
        oauth_params: OAuthParameters,
        redirect_uri: String,
        database: UserStore,
    ) -> (r: UserManager)
        requires
            database.wf(),
        ensures
            r.wf(),
            r.spec_config() == (ManagerConfigView {
                jwt_secret: jwt_secret@,
                client_id: oauth_params.client_id@,
                client_secret: oauth_params.client_secret@,
                auth_uri: oauth_params.auth_uri@,
                token_uri: oauth_params.token_uri@,
                redirect_uri: redirect_uri@,
            }),
            r.spec_secret() == jwt_secret@,
            r.users() =~= database@,
            r.sessions() =~= Seq::<UserView>::empty(),
            r.flows() =~= Seq::<PendingFlowView>::empty(),
    {
        UserManager {
            jwt_secret,
            oauth_params,
            redirect_uri,
            database,
            active_users: Vec::new(),
            oauth_flows: Vec::new(),
        }
    }

    /// Hashes a password with the credential hasher; see
    /// [`crate::hashing::hash_password`].
    pub fn hash_password(password: &String) -> (r: Option<String>)
        ensures
            r matches Some(h) ==> bcrypt_accepts(password@, h@),
    {
        crate::hashing::hash_password(password)
    }

    /// Verifies a password against a stored hash, failing closed; see
    /// [`crate::hashing::verify_password`].
    pub fn verify_password(password: &String, hashed_password: &String) -> (r: bool)
        ensures
            r == bcrypt_accepts(password@, hashed_password@),
    {
        crate::hashing::verify_password(password, hashed_password)
    }

    /// Issues a signed session token for this user: claims `{id, exp}` with
    /// `exp` exactly the session TTL past `now`.
    pub fn generate_session_token(&self, user: &User, now: i64) -> (r: Result<
        String,
        UserManagerError,
    >)
        requires
            now <= i64::MAX - SESSION_TTL_SECS,
        ensures
            r is Ok,
            r matches Ok(t) ==> t@ == signed_token_of(
                self.spec_secret(),
                user@.id,
                (now + SESSION_TTL_SECS) as i64,
            ) && token_claims_of(self.spec_secret(), t@) == Some(
                (user@.id, (now + SESSION_TTL_SECS) as i64),
            ),
    {
        let exp = now + SESSION_TTL_SECS;
        match sign_claims(&self.jwt_secret, user.get_id(), exp) {
            Some(t) => Ok(t),
            None => Err(
                UserManagerError::TokenError("Failed to sign session token".to_owned()),
            ),
        }
    }

    /// The index of the active session cached for this user id, if any.
    fn find_active_index(&self, id: i32) -> (r: Option<usize>)
        requires
            unique_ids(self.sessions()),
        ensures
            match r {
                Some(i) => has_user_id(self.sessions(), id) && i < self.sessions().len()
                    && user_id_index(self.sessions(), id) == i as int && self.sessions()[
                    i as int
                ].id == id,
                None => !has_user_id(self.sessions(), id),
            },
    {
        let n = self.active_users.len();
        for i in 0..n
            invariant
                n == self.sessions().len(),
                forall|k: int| 0 <= k < i ==> (#[trigger] self.sessions()[k]).id != id,
        {
            assert(self.sessions()[i as int] == self.active_users@[i as int]@);
            if self.active_users[i].get_id() == id {
                proof {
                    assert(has_user_id(self.sessions(), id));
                    let w = user_id_index(self.sessions(), id);
                    assert(0 <= w < self.sessions().len() && self.sessions()[w].id == id);
                    assert(w == i as int);
                }
                return Some(i);
            }
        }
        None
    }

    /// Validates a session token: the signature must verify against the
    /// process secret and the claims must parse (else a token error); the
    /// token is then current exactly when its expiry has not elapsed and the
    /// decoded user has an active session whose cached token equals the
    /// presented token exactly.
    pub fn validate_token(&self, token_str: &String, now: i64) -> (r: Result<
        (bool, i32),
        UserManagerError,
    >)
        requires
            self.wf(),
        ensures
            match token_claims_of(self.spec_secret(), token_str@) {
                None => r matches Err(e) && e matches UserManagerError::TokenError(m)
                    && m@ == "Invalid JWT Token"@,
                Some((id, exp)) => r matches Ok(p) && p.1 == id && p.0 == (now <= exp && (
                match find_user_by_id(self.sessions(), id) {
                    Some(u) => u.session_token == Some(token_str@),
                    None => false,
                })),
            },
    {
        let claims = verify_claims(&self.jwt_secret, token_str);
        match claims {
            None => Err(UserManagerError::TokenError("Invalid JWT Token".to_owned())),
            Some((id, exp)) => {
                if exp < now {
                    return Ok((false, id));
                }
                match self.find_active_index(id) {
                    Some(i) => {
                        assert(find_user_by_id(self.sessions(), id) == Some(
                            self.sessions()[i as int],
                        ));
                        match self.active_users[i].get_session_token() {
                            Some(cached) => Ok((cached == *token_str, id)),
                            None => Ok((false, id)),
                        }
                    },
                    None => Ok((false, id)),
                }
            },
        }
    }

    /// The identity a request with this `authorization` header resolves to,
    /// if the header is present, has the bearer form, the token verifies and
    /// is unexpired, and the cached session token matches it exactly.
    pub open spec fn spec_request_user(&self, header: Option<Seq<char>>, now: i64) -> Option<
        i32,
    > {
        match header {
            None => None,
            Some(h) => match spec_bearer_token(h) {
                None => None,
                Some(tok) => match token_claims_of(self.spec_secret(), tok) {
                    None => None,
                    Some((id, exp)) => if now <= exp && (match find_user_by_id(
                        self.sessions(),
                        id,
                    ) {
                        Some(u) => u.session_token == Some(tok),
                        None => false,
                    }) {
                        Some(id)
                    } else {
                        None
                    },
                },
            },
        }
    }

    /// Authenticates a request from its `authorization` header: the header
    /// must be present and of the form `Bearer <token>`, and the token must
    /// pass `validate_token`. Every failure is reported as the same
    /// authentication class; the message never says which check failed
    /// beyond the malformed-header cases visible to the caller anyway.
    pub fn validate_request(&self, auth_header: Option<&String>, now: i64) -> (r: Result<
        i32,
        UserManagerError,
    >)
        requires
            self.wf(),
        ensures
            r is Ok <==> self.spec_request_user(
                match auth_header {
                    Some(h) => Some(h@),
                    None => None,
                },
                now,
            ) is Some,
            r matches Ok(id) ==> self.spec_request_user(Some(auth_header->Some_0@), now)
                == Some(id),
            r matches Err(e) ==> (e matches UserManagerError::AuthenticationError(_)
                || e matches UserManagerError::TokenError(_)),
            match auth_header {
                None => r matches Err(e) && (e matches UserManagerError::AuthenticationError(m)
                    && m@ == "No 'authorization' header"@),
                Some(h) => match spec_bearer_token(h@) {
                    None => r matches Err(e) && (e matches
                        UserManagerError::AuthenticationError(m) && m@
                        == "Invalid header format"@),
                    Some(tok) => match token_claims_of(self.spec_secret(), tok) {
                        None => r matches Err(e) && (e matches UserManagerError::TokenError(m)
                            && m@ == "Invalid JWT Token"@),
                        Some((id, exp)) => if now <= exp && (match find_user_by_id(
                            self.sessions(),
                            id,
                        ) {
                            Some(u) => u.session_token == Some(tok),
                            None => false,
                        }) {
                            r matches Ok(rid) && rid == id
                        } else {
                            r matches Err(e) && (e matches
                                UserManagerError::AuthenticationError(m) && m@
                                == "Invalid token"@)
                        },
                    },
                },
            },
    {
        proof {
            reveal_strlit("Bearer ");
        }
        let h = match auth_header {
            Some(h) => h,
            None => {
                return Err(
                    UserManagerError::AuthenticationError(
                        "No 'authorization' header".to_owned(),
                    ),
                );
            },
        };
        let n = h.as_str().unicode_len();
        if n < 7 {
            assert(spec_bearer_token(h@) is None);
            return Err(UserManagerError::AuthenticationError("Invalid header format".to_owned()));
        }
        let prefix = h.as_str().substring_char(0, 7).to_owned();
        if !(prefix == "Bearer ".to_owned()) {
            assert(spec_bearer_token(h@) is None);
            return Err(UserManagerError::AuthenticationError("Invalid header format".to_owned()));
        }
        let token = h.as_str().substring_char(7, n).to_owned();
        assert(spec_bearer_token(h@) == Some(token@));
        match self.validate_token(&token, now) {
            Err(e) => Err(e),
            Ok((valid, id)) => {
                if valid {
                    Ok(id)
                } else {
                    Err(UserManagerError::AuthenticationError("Invalid token".to_owned()))
                }
            },
        }
    }

    /// Caches this record as the active session of its user, overwriting any
    /// prior entry for the same id; other users' entries are untouched.
    fn upsert_active(&mut self, user: User)
        requires
            unique_ids(old(self).sessions()),
        ensures
            unique_ids(final(self).sessions()),
            final(self).spec_config() == old(self).spec_config(),
            final(self).spec_database() == old(self).spec_database(),
            final(self).flows() == old(self).flows(),
            find_user_by_id(final(self).sessions(), user@.id) == Some(user@),
            forall|oid: i32|
                oid != user@.id ==> #[trigger] find_user_by_id(final(self).sessions(), oid)
                    == find_user_by_id(old(self).sessions(), oid),
    {
        let id = user.get_id();
        let ghost s0 = self.sessions();
        match self.find_active_index(id) {
            Some(i) => {
                proof {
                    crate::store::lemma_user_seq_remove(s0, i as int);
                }
                self.active_users.remove(i);
                assert(self.sessions() =~= s0.remove(i as int));
            },
            None => {},
        }
        let ghost s1 = self.sessions();
        assert(unique_ids(s1) && !has_user_id(s1, id));
        proof {
            crate::store::lemma_user_seq_push(s1, user@);
        }
        self.active_users.push(user);
        assert(self.sessions() =~= s1.push(user@));
    }

    /// Whether a registration request with these credentials passes input
    /// validation: username at least 3 characters, password at least 8.
    pub open spec fn spec_register_valid(username: Seq<char>, password: Seq<char>) -> bool {
        username.len() >= 3 && password.len() >= 8
    }

    /// Registers a new user.
    ///
    /// Too-short credentials are rejected with a specific validation error
    /// before storage is touched; a taken username is a conflict error,
    /// reported before the password is hashed; otherwise the record is
    /// created under the store's own uniqueness enforcement, and only a
    /// hashing failure (exhausted OS randomness) is reported as an upstream
    /// error. Sessions and pending flows are never touched.
    pub fn register(&mut self, username: String, password: String) -> (r: Result<
        (),
        UserManagerError,
    >)
        requires
            old(self).wf(),
        ensures
            final(self).wf(),
            final(self).spec_config() == old(self).spec_config(),
            final(self).sessions() == old(self).sessions(),
            final(self).flows() == old(self).flows(),
            username@.len() < 3 ==> (r matches Err(e) && (e matches
                UserManagerError::ValidationError(m) && m@ == "Username is too short"@)
                && final(self).users() =~= old(self).users()),
            username@.len() >= 3 && password@.len() < 8 ==> (r matches Err(e) && (e matches
                UserManagerError::ValidationError(m) && m@ == "Password is too short"@)
                && final(self).users() =~= old(self).users()),
            Self::spec_register_valid(username@, password@) && has_username(
                old(self).users(),
                username@,
            ) ==> (r matches Err(e) && (e matches UserManagerError::ConflictError(m) && m@
                == ("User "@ + username@ + " already exists"@)) && final(self).users() =~= old(
                self,
            ).users()),
            Self::spec_register_valid(username@, password@) && !has_username(
                old(self).users(),
                username@,
            ) && old(self).spec_database().spec_next_id() == i32::MAX ==> (match r {
                Err(e) => (match e {
                    UserManagerError::ConflictError(m) => m@ == "User "@ + username@
                        + " already exists"@,
                    UserManagerError::UpstreamError(_) => true,
                    _ => false,
                }) && final(self).users() =~= old(self).users(),
                Ok(_) => false,
            }),
            match r {
                Err(e) => e matches UserManagerError::ConflictError(_)
                    ==> Self::spec_register_valid(username@, password@) && (has_username(
                    old(self).users(),
                    username@,
                ) || old(self).spec_database().spec_next_id() == i32::MAX),
                Ok(_) => true,
            },
            Self::spec_register_valid(username@, password@) && !has_username(
                old(self).users(),
                username@,
            ) && old(self).spec_database().spec_next_id() < i32::MAX ==> (match r {
                Ok(_) => exists|h: Seq<char>|
                    #[trigger] bcrypt_accepts(password@, h) && final(self).users() =~= old(
                        self,
                    ).users().push(
                        UserView {
                            id: old(self).spec_database().spec_next_id(),
                            username: username@,
                            password_hash: h,
                            created_at: None,
                            guser: None,
                            session_token: None,
                        },
                    ),
                Err(e) => e matches UserManagerError::UpstreamError(_) && final(self).users()
                    =~= old(self).users(),
            }),
            r is Ok ==> Self::spec_register_valid(username@, password@) && !has_username(
                old(self).users(),
                username@,
            ),
    {
        if username.as_str().unicode_len() < 3 {
            return Err(UserManagerError::ValidationError("Username is too short".to_owned()));
        }
        if password.as_str().unicode_len() < 8 {
            return Err(UserManagerError::ValidationError("Password is too short".to_owned()));
        }
        let conflict_msg = "User ".to_owned().concat(username.as_str()).concat(
            " already exists",
        );
        // A taken username is reported before the (slow) hash is computed,
        // so the duplicate signal is never masked by a hashing failure; the
        // store's own insert remains the authority on uniqueness.
        if self.database.get_user_by_username(&username).is_ok() {
            return Err(UserManagerError::ConflictError(conflict_msg));
        }
        let hashed = match Self::hash_password(&password) {
            Some(h) => h,
            None => {
                return Err(
                    UserManagerError::UpstreamError("Failed to hash password".to_owned()),
                );
            },
        };
        let ghost hview = hashed@;
        match self.database.new_user(User::new(username, hashed)) {
            Ok(_) => {
                assert(bcrypt_accepts(password@, hview));
                Ok(())
            },
            Err(_) => Err(UserManagerError::ConflictError(conflict_msg)),
        }
    }

    /// Whether a login with these credentials is accepted: the username
    /// resolves to a record whose stored hash verifies the password.
    pub open spec fn spec_login_accepted(
        users: Seq<UserView>,
        username: Seq<char>,
        password: Seq<char>,
    ) -> bool {
        match find_user_by_name(users, username) {
            Some(u) => bcrypt_accepts(password, u.password_hash),
            None => false,
        }
    }

    /// Logs a user in.
    ///
    /// An unknown username and a wrong password yield one indistinguishable
    /// invalid-credentials error. On success a fresh session token with
    /// expiry `now + SESSION_TTL_SECS` is issued and the user's record is
    /// cached as the active session with that token, overwriting any prior
    /// entry for the same user — which is what invalidates any earlier
    /// outstanding token for that user. The store and pending flows are
    /// never touched.
    pub fn login(&mut self, username: &String, password: &String, now: i64) -> (r: Result<
        String,
        UserManagerError,
    >)
        requires
            old(self).wf(),
            now <= i64::MAX - SESSION_TTL_SECS,
        ensures
            final(self).wf(),
            final(self).spec_config() == old(self).spec_config(),
            final(self).users() == old(self).users(),
            final(self).spec_database() == old(self).spec_database(),
            final(self).flows() == old(self).flows(),
            r is Ok <==> Self::spec_login_accepted(old(self).users(), username@, password@),
            r matches Err(e) ==> (e matches UserManagerError::AuthenticationError(m) && m@
                == "Invalid username or password"@) && final(self).sessions() == old(
                self,
            ).sessions(),
            r matches Ok(t) ==> (match find_user_by_name(old(self).users(), username@) {
                Some(u) => {
                    &&& t@ == signed_token_of(
                        old(self).spec_secret(),
                        u.id,
                        (now + SESSION_TTL_SECS) as i64,
                    )
                    &&& token_claims_of(old(self).spec_secret(), t@) == Some(
                        (u.id, (now + SESSION_TTL_SECS) as i64),
                    )
                    &&& find_user_by_id(final(self).sessions(), u.id) == Some(
                        UserView { session_token: Some(t@), ..u },
                    )
                    &&& forall|oid: i32|
                        oid != u.id ==> #[trigger] find_user_by_id(final(self).sessions(), oid)
                            == find_user_by_id(old(self).sessions(), oid)
                },
                None => false,
            }),
    {
        let mut u = match self.database.get_user_by_username(username) {
            Ok(u) => u,
            Err(_) => {
                return Err(
                    UserManagerError::AuthenticationError(
                        "Invalid username or password".to_owned(),
                    ),
                );
            },
        };
        if !Self::verify_password(password, &u.get_password_hash()) {
            return Err(
                UserManagerError::AuthenticationError("Invalid username or password".to_owned()),
            );
        }
        let session_token = match self.generate_session_token(&u, now) {
            Ok(t) => t,
            Err(e) => {
                return Err(e);
            },
        };
        u.set_session_token(session_token.clone());
        self.upsert_active(u);
        Ok(session_token)
    }

    /// The provider credentials and endpoints the token exchange needs, as
    /// plain values: client id, client secret, authorization endpoint, token
    /// endpoint, and the service's redirect URI.
    pub fn provider_endpoints(&self) -> (r: (String, String, String, String, String))
        ensures
            r.0@ == self.spec_config().client_id,
            r.1@ == self.spec_config().client_secret,
            r.2@ == self.spec_config().auth_uri,
            r.3@ == self.spec_config().token_uri,
            r.4@ == self.spec_config().redirect_uri,
    {
        (
            self.oauth_params.client_id.clone(),
            self.oauth_params.client_secret.clone(),
            self.oauth_params.auth_uri.clone(),
            self.oauth_params.token_uri.clone(),
            self.redirect_uri.clone(),
        )
    }

    /// The active-session table, one cached record per logged-in user.
    pub fn get_active_users(&self) -> (r: &Vec<User>)
        ensures
            r@.len() == self.sessions().len(),
            forall|i: int| 0 <= i < r@.len() ==> (#[trigger] r@[i])@ == self.sessions()[i],
    {
        &self.active_users
    }

    /// The index of the pending flow under this state, if any.
    fn find_flow_index_by_state(&self, state: &String) -> (r: Option<usize>)
        requires
            unique_flow_states(self.flows()),
        ensures
            match r {
                Some(i) => has_flow_state(self.flows(), state@) && i < self.flows().len()
                    && flow_state_index(self.flows(), state@) == i as int && self.flows()[
                    i as int
                ].state == state@,
                None => !has_flow_state(self.flows(), state@),
            },
    {
        let n = self.oauth_flows.len();
        for i in 0..n
            invariant
                n == self.flows().len(),
                forall|k: int| 0 <= k < i ==> (#[trigger] self.flows()[k]).state != state@,
        {
            assert(self.flows()[i as int] == self.oauth_flows@[i as int]@);
            if self.oauth_flows[i].state == *state {
                proof {
                    assert(has_flow_state(self.flows(), state@));
                    let w = flow_state_index(self.flows(), state@);
                    assert(0 <= w < self.flows().len() && self.flows()[w].state == state@);
                    assert(w == i as int);
                }
                return Some(i);
            }
        }
        None
    }

    /// The index of the pending flow of this user, if any.
    fn find_flow_index_by_user(&self, user_id: i32) -> (r: Option<usize>)
        requires
            unique_flow_users(self.flows()),
        ensures
            match r {
                Some(i) => has_flow_for_user(self.flows(), user_id) && i < self.flows().len()
                    && flow_user_index(self.flows(), user_id) == i as int && self.flows()[
                    i as int
                ].user_id == user_id,
                None => !has_flow_for_user(self.flows(), user_id),
            },
    {
        let n = self.oauth_flows.len();
        for i in 0..n
            invariant
                n == self.flows().len(),
                forall|k: int| 0 <= k < i ==> (#[trigger] self.flows()[k]).user_id != user_id,
        {
            assert(self.flows()[i as int] == self.oauth_flows@[i as int]@);
            if self.oauth_flows[i].flow.get_user_id() == user_id {
                proof {
                    assert(has_flow_for_user(self.flows(), user_id));
                    let w = flow_user_index(self.flows(), user_id);
                    assert(0 <= w < self.flows().len() && self.flows()[w].user_id == user_id);
                    assert(w == i as int);
                }
                return Some(i);
            }
        }
        None
    }

    /// Begins a delegation handshake for the authenticated caller.
    ///
    /// The caller is authenticated exactly as `validate_request` does; a
    /// fresh random CSRF state and PKCE verifier are drawn, the provider
    /// authorization URL is built, any prior pending flow of the same user
    /// is evicted first, and the new flow is stored under the state with
    /// creation time `now`. Returns the authorization URL and the state.
    pub fn begin_delegation(&mut self, auth_header: Option<&String>, now: i64) -> (r: Result<
        (String, String),
        UserManagerError,
    >)
        requires
            old(self).wf(),
            0 <= now,
        ensures
            final(self).wf(),
            final(self).spec_config() == old(self).spec_config(),
            final(self).spec_database() == old(self).spec_database(),
            final(self).sessions() == old(self).sessions(),
            r is Err ==> final(self).flows() == old(self).flows(),
            match r {
                Ok(_) => old(self).spec_request_user(
                    match auth_header {
                        Some(h) => Some(h@),
                        None => None,
                    },
                    now,
                ) is Some,
                Err(e) => if old(self).spec_request_user(
                    match auth_header {
                        Some(h) => Some(h@),
                        None => None,
                    },
                    now,
                ) is None {
                    e matches UserManagerError::AuthenticationError(_) || e matches
                        UserManagerError::TokenError(_)
                } else {
                    e matches UserManagerError::UpstreamError(_) && !provider_urls_parse(
                        old(self).spec_config().auth_uri,
                        old(self).spec_config().token_uri,
                        old(self).spec_config().redirect_uri,
                    )
                },
            },
            old(self).spec_request_user(
                match auth_header {
                    Some(h) => Some(h@),
                    None => None,
                },
                now,
            ) is Some && provider_urls_parse(
                old(self).spec_config().auth_uri,
                old(self).spec_config().token_uri,
                old(self).spec_config().redirect_uri,
            ) ==> r is Ok,
            r matches Ok(p) ==> (match old(self).spec_request_user(
                Some(auth_header->Some_0@),
                now,
            ) {
                Some(id) => p.1@.len() == 32 && (match find_flow_by_state(
                    final(self).flows(),
                    p.1@,
                ) {
                    Some(f) => {
                        &&& f.user_id == id
                        &&& f.created_at == now
                        &&& p.0@ == auth_url_of(
                            old(self).spec_config().auth_uri,
                            old(self).spec_config().client_id,
                            old(self).spec_config().redirect_uri,
                            "https://www.googleapis.com/auth/photoslibrary.readonly"@,
                            p.1@,
                            f.pkce_verifier,
                        )
                        &&& find_flow_by_user(final(self).flows(), id) == Some(f)
                        &&& forall|st: Seq<char>|
                            st != p.1@ ==> #[trigger] find_flow_by_state(final(self).flows(), st)
                                == (match find_flow_by_state(old(self).flows(), st) {
                                Some(g) => if g.user_id == id {
                                    None
                                } else {
                                    Some(g)
                                },
                                None => None,
                            })
                        &&& forall|uid: i32|
                            uid != id ==> #[trigger] find_flow_by_user(final(self).flows(), uid)
                                == (match find_flow_by_user(old(self).flows(), uid) {
                                Some(g) => if g.state == p.1@ {
                                    None
                                } else {
                                    Some(g)
                                },
                                None => None,
                            })
                    },
                    None => false,
                }),
                None => false,
            }),
    {
        let id = match self.validate_request(auth_header, now) {
            Ok(id) => id,
            Err(e) => {
                return Err(e);
            },
        };
        let state = random_state();
        let verifier = new_pkce_verifier();
        let url = match build_authorization_url(
            &self.oauth_params,
            &self.redirect_uri,
            oauth_scope(),
            &state,
            &verifier,
        ) {
            Some(u) => u,
            None => {
                return Err(
                    UserManagerError::UpstreamError("Failed to create new oauth flow".to_owned()),
                );
            },
        };
        // A user begins at most one handshake at a time: any prior pending
        // flow of this user is discarded, so a stale flow cannot later
        // complete.
        let ghost f0 = self.flows();
        match self.find_flow_index_by_user(id) {
            Some(i) => {
                proof {
                    crate::delegation::lemma_flow_seq_remove(f0, i as int);
                }
                self.oauth_flows.remove(i);
                assert(self.flows() =~= f0.remove(i as int));
            },
            None => {},
        }
        let ghost f1 = self.flows();
        assert(!has_flow_for_user(f1, id));
        // A state key maps to exactly one flow: in the (vanishingly rare)
        // case the fresh random state collides with a stored one, the old
        // entry is replaced.
        match self.find_flow_index_by_state(&state) {
            Some(i) => {
                proof {
                    crate::delegation::lemma_flow_seq_remove(f1, i as int);
                }
                self.oauth_flows.remove(i);
                assert(self.flows() =~= f1.remove(i as int));
            },
            None => {},
        }
        let ghost f2 = self.flows();
        assert(!has_flow_state(f2, state@));
        assert(!has_flow_for_user(f2, id));
        proof {
            crate::delegation::lemma_flow_seq_push(
                f2,
                PendingFlowView {
                    state: state@,
                    user_id: id,
                    pkce_verifier: verifier@,
                    created_at: now,
                },
            );
        }
        let entry = PendingFlow {
            state: state.clone(),
            flow: OAuthFlow::new(id, verifier),
            created_at: now,
        };
        self.oauth_flows.push(entry);
        assert(self.flows() =~= f2.push(
            PendingFlowView { state: state@, user_id: id, pkce_verifier: verifier@, created_at: now },
        ));
        Ok((url, state))
    }

    /// Looks up and removes the pending flow under this state — a single
    /// lookup and a single consumption, so a repeated callback with the same
    /// state fails with an unknown state — and checks that the owning user
    /// still has an active session. On success returns the owning user id
    /// and the single-use PKCE verifier; the flow is consumed on failure as
    /// well, except when the state is unknown. No session is ever mutated.
    pub fn take_flow(&mut self, state: &String) -> (r: Result<(i32, String), UserManagerError>)
        requires
            old(self).wf(),
        ensures
            final(self).wf(),
            final(self).spec_config() == old(self).spec_config(),
            final(self).spec_database() == old(self).spec_database(),
            final(self).sessions() == old(self).sessions(),
            match find_flow_by_state(old(self).flows(), state@) {
                None => final(self).flows() == old(self).flows() && (r matches Err(e) && (
                e matches UserManagerError::DelegationError(m) && m@ == "No flow for state"@)),
                Some(f) => {
                    &&& find_flow_by_state(final(self).flows(), state@) is None
                    &&& find_flow_by_user(final(self).flows(), f.user_id) is None
                    &&& forall|st: Seq<char>|
                        st != state@ ==> #[trigger] find_flow_by_state(final(self).flows(), st)
                            == find_flow_by_state(old(self).flows(), st)
                    &&& forall|uid: i32|
                        uid != f.user_id ==> #[trigger] find_flow_by_user(
                            final(self).flows(),
                            uid,
                        ) == find_flow_by_user(old(self).flows(), uid)
                    &&& if has_user_id(old(self).sessions(), f.user_id) {
                        r matches Ok(p) && p.0 == f.user_id && p.1@ == f.pkce_verifier
                    } else {
                        r matches Err(e) && (e matches UserManagerError::DelegationError(m)
                            && m@ == "User is not active"@)
                    }
                },
            },
    {
        let ghost f0 = self.flows();
        let i = match self.find_flow_index_by_state(state) {
            Some(i) => i,
            None => {
                return Err(UserManagerError::DelegationError("No flow for state".to_owned()));
            },
        };
        proof {
            crate::delegation::lemma_flow_seq_remove(f0, i as int);
        }
        let entry = self.oauth_flows.remove(i);
        assert(self.flows() =~= f0.remove(i as int));
        let uid = entry.flow.get_user_id();
        let verifier = entry.flow.get_pkce_verifier();
        match self.find_active_index(uid) {
            Some(_) => Ok((uid, verifier)),
            None => Err(UserManagerError::DelegationError("User is not active".to_owned())),
        }
    }

    /// Applies the outcome of the provider token exchange for a taken flow.
    ///
    /// On a successful exchange the access token is written onto the user's
    /// cached session record — into its provider account entry, whose name
    /// defaults to the username — and on any failure, or for a user no
    /// longer active, nothing is mutated and a delegation error is returned.
    pub fn finish_delegation(&mut self, user_id: i32, access_token: Option<String>) -> (r: Result<
        (),
        UserManagerError,
    >)
        requires
            old(self).wf(),
        ensures
            final(self).wf(),
            final(self).spec_config() == old(self).spec_config(),
            final(self).spec_database() == old(self).spec_database(),
            final(self).flows() == old(self).flows(),
            match access_token {
                None => final(self).sessions() == old(self).sessions() && (r matches Err(e) && (
                e matches UserManagerError::ExchangeError(m)
                    && m@ == "Provider token exchange failed"@)),
                Some(t) => match find_user_by_id(old(self).sessions(), user_id) {
                    None => final(self).sessions() == old(self).sessions() && (r matches Err(e)
                        && (e matches UserManagerError::DelegationError(m)
                        && m@ == "User is not active"@)),
                    Some(u) => r is Ok && find_user_by_id(final(self).sessions(), user_id)
                        == Some(
                        UserView {
                            guser: Some(
                                GUserView {
                                    auth_token: t@,
                                    name: match u.guser {
                                        Some(g) => g.name,
                                        None => u.username,
                                    },
                                    pfp_url: match u.guser {
                                        Some(g) => g.pfp_url,
                                        None => Seq::<char>::empty(),
                                    },
                                },
                            ),
                            ..u
                        },
                    ) && (forall|oid: i32|
                        oid != user_id ==> #[trigger] find_user_by_id(
                            final(self).sessions(),
                            oid,
                        ) == find_user_by_id(old(self).sessions(), oid)),
                },
            },
    {
        let t = match access_token {
            Some(t) => t,
            None => {
                return Err(
                    UserManagerError::ExchangeError(
                        "Provider token exchange failed".to_owned(),
                    ),
                );
            },
        };
        let i = match self.find_active_index(user_id) {
            Some(i) => i,
            None => {
                return Err(UserManagerError::DelegationError("User is not active".to_owned()));
            },
        };
        assert(find_user_by_id(self.sessions(), user_id) == Some(self.sessions()[i as int]));
        let mut u = self.active_users[i].snapshot();
        let g = match u.get_guser() {
            Some(mut g) => {
                g.set_auth_token(t);
                g
            },
            None => GUser::new(t, u.get_username(), String::new()),
        };
        u.set_guser(g);
        self.upsert_active(u);
        Ok(())
    }

    /// The index of some pending flow strictly older than the TTL, if any.
    fn find_expired_flow_index(&self, now: i64) -> (r: Option<usize>)
        requires
            forall|i: int|
                0 <= i < self.flows().len() ==> (#[trigger] self.flows()[i]).created_at >= 0,
        ensures
            match r {
                Some(i) => i < self.flows().len() && self.flows()[i as int].created_at
                    + FLOW_TTL_SECS < now,
                None => forall|k: int|
                    0 <= k < self.flows().len() ==> !((#[trigger] self.flows()[k]).created_at
                        + FLOW_TTL_SECS < now),
            },
    {
        let n = self.oauth_flows.len();
        for i in 0..n
            invariant
                n == self.flows().len(),
                forall|k: int|
                    0 <= k < i ==> !((#[trigger] self.flows()[k]).created_at + FLOW_TTL_SECS
                        < now),
        {
            assert(self.flows()[i as int] == self.oauth_flows@[i as int]@);
            let created = self.oauth_flows[i].created_at;
            if created < now && now - created > FLOW_TTL_SECS {
                return Some(i);
            }
        }
        None
    }

    /// Removes every pending flow strictly older than the TTL, regardless of
    /// whether a caller ever resolves it. Flows at or under the TTL, and the
    /// session and user tables, are untouched.
    pub fn sweep_expired_flows(&mut self, now: i64)
        requires
            old(self).wf(),
        ensures
            final(self).wf(),
            final(self).spec_config() == old(self).spec_config(),
            final(self).spec_database() == old(self).spec_database(),
            final(self).sessions() == old(self).sessions(),
            forall|st: Seq<char>|
                #[trigger] find_flow_by_state(final(self).flows(), st) == (
                match find_flow_by_state(old(self).flows(), st) {
                    Some(f) => if f.created_at + FLOW_TTL_SECS < now {
                        None
                    } else {
                        Some(f)
                    },
                    None => None,
                }),
    {
        let mut done = false;
        while !done
            invariant
                self.wf(),
                self.spec_config() == old(self).spec_config(),
                self.spec_database() == old(self).spec_database(),
                self.sessions() == old(self).sessions(),
                forall|st: Seq<char>|
                    #![trigger find_flow_by_state(self.flows(), st)]
                    match find_flow_by_state(old(self).flows(), st) {
                        Some(f) => if f.created_at + FLOW_TTL_SECS < now {
                            find_flow_by_state(self.flows(), st) == Some(f)
                                || find_flow_by_state(self.flows(), st) is None
                        } else {
                            find_flow_by_state(self.flows(), st) == Some(f)
                        },
                        None => find_flow_by_state(self.flows(), st) is None,
                    },
                done ==> forall|k: int|
                    0 <= k < self.flows().len() ==> !((#[trigger] self.flows()[k]).created_at
                        + FLOW_TTL_SECS < now),
            decreases self.oauth_flows@.len() + (if done { 0int } else { 1int }),
        {
            let ghost fc = self.flows();
            match self.find_expired_flow_index(now) {
                Some(i) => {
                    proof {
                        crate::delegation::lemma_flow_seq_remove(fc, i as int);
                    }
                    self.oauth_flows.remove(i);
                    assert(self.flows() =~= fc.remove(i as int));
                },
                None => {
                    done = true;
                },
            }
        }
        assert forall|st: Seq<char>| #[trigger] find_flow_by_state(self.flows(), st) == (
        match find_flow_by_state(old(self).flows(), st) {
            Some(f) => if f.created_at + FLOW_TTL_SECS < now {
                None
            } else {
                Some(f)
            },
            None => None,
        }) by {
            match find_flow_by_state(old(self).flows(), st) {
                Some(f) => {
                    if f.created_at + FLOW_TTL_SECS < now {
                        if find_flow_by_state(self.flows(), st) is Some {
                            let w = flow_state_index(self.flows(), st);
                            assert(0 <= w < self.flows().len() && self.flows()[w] == f);
                        }
                    }
                },
                None => {},
            }
        }
    }
}

} // verus!
