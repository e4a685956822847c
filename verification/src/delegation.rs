//! Delegation flow engine: per-user OAuth2 authorization-code-with-PKCE
//! handshakes.
//!
//! A pending flow binds an opaque CSRF state string to the originating user,
//! the single-use PKCE verifier and a creation timestamp. The state and the
//! verifier are drawn from cryptographic randomness; the provider
//! authorization URL embedding the challenge, state, redirect URI and scope
//! is built deterministically from them, which `auth_url_of` names.

use oauth2::{AuthUrl, ClientId, ClientSecret, CsrfToken, PkceCodeChallenge, PkceCodeVerifier,
    RedirectUrl, Scope, TokenUrl};
use oauth2::basic::BasicClient;
use rand::Rng;
use rand::distributions::Alphanumeric;
use vstd::prelude::*;

verus! {

/// Credentials and endpoints of the external resource provider, as read
/// from the provider's client-secret file.
#[derive(Debug)]
pub struct OAuthParameters {
    pub client_id: String,
    pub project_id: String,
    pub auth_uri: String,
    pub token_uri: String,
    pub auth_provider_x509_cert_url: String,
    pub client_secret: String,
    pub redirect_uris: Vec<String>,
}

/// Mathematical view of an `OAuthFlow`.
pub ghost struct OAuthFlowView {
    pub user_id: i32,
    pub pkce_verifier: Seq<char>,
}

/// One delegation handshake: the originating user and the single-use PKCE
/// verifier that the eventual code exchange must present.
pub struct OAuthFlow {
    user_id: i32,
    pkce_verifier: String,
}

impl View for OAuthFlow {
    type V = OAuthFlowView;

    closed spec fn view(&self) -> OAuthFlowView {
        OAuthFlowView { user_id: self.user_id, pkce_verifier: self.pkce_verifier@ }
    }
}

impl OAuthFlow {
    pub fn new(user_id: i32, pkce_verifier: String) -> (r: OAuthFlow)
        ensures
            r@ == (OAuthFlowView { user_id, pkce_verifier: pkce_verifier@ }),
    {
        OAuthFlow { user_id, pkce_verifier }
    }

    pub fn get_user_id(&self) -> (r: i32)
        ensures
            r == self@.user_id,
    {
        self.user_id
    }

    /// The stored PKCE verifier; the pending-flow entry holding it is
    /// removed atomically with the read, so the verifier is handed out at
    /// most once per flow.
    pub fn get_pkce_verifier(&self) -> (r: String)
        ensures
            r@ == self@.pkce_verifier,
    {
        self.pkce_verifier.clone()
    }
}

/// Mathematical view of a `PendingFlow`.
pub ghost struct PendingFlowView {
    pub state: Seq<char>,
    pub user_id: i32,
    pub pkce_verifier: Seq<char>,
    pub created_at: i64,
}

/// A pending handshake, keyed by its CSRF state string.
pub struct PendingFlow {
    pub state: String,
    pub flow: OAuthFlow,
    pub created_at: i64,
}

impl View for PendingFlow {
    type V = PendingFlowView;

    open spec fn view(&self) -> PendingFlowView {
        PendingFlowView {
            state: self.state@,
            user_id: self.flow@.user_id,
            pkce_verifier: self.flow@.pkce_verifier,
            created_at: self.created_at,
        }
    }
}

/// Whether some pending flow in `s` carries this state.
pub open spec fn has_flow_state(s: Seq<PendingFlowView>, state: Seq<char>) -> bool {
    exists|i: int| 0 <= i < s.len() && (#[trigger] s[i]).state == state
}

/// The index of the flow carrying this state (meaningful when states are
/// unique).
pub open spec fn flow_state_index(s: Seq<PendingFlowView>, state: Seq<char>) -> int {
    choose|i: int| 0 <= i < s.len() && (#[trigger] s[i]).state == state
}

/// The pending flow under this state, if any.
pub open spec fn find_flow_by_state(s: Seq<PendingFlowView>, state: Seq<char>) -> Option<
    PendingFlowView,
> {
    if has_flow_state(s, state) {
        Some(s[flow_state_index(s, state)])
    } else {
        None
    }
}

/// Whether some pending flow in `s` belongs to this user.
pub open spec fn has_flow_for_user(s: Seq<PendingFlowView>, user_id: i32) -> bool {
    exists|i: int| 0 <= i < s.len() && (#[trigger] s[i]).user_id == user_id
}

/// The index of the flow belonging to this user (meaningful when a user has
/// at most one pending flow).
pub open spec fn flow_user_index(s: Seq<PendingFlowView>, user_id: i32) -> int {
    choose|i: int| 0 <= i < s.len() && (#[trigger] s[i]).user_id == user_id
}

/// The pending flow of this user, if any.
pub open spec fn find_flow_by_user(s: Seq<PendingFlowView>, user_id: i32) -> Option<
    PendingFlowView,
> {
    if has_flow_for_user(s, user_id) {
        Some(s[flow_user_index(s, user_id)])
    } else {
        None
    }
}

/// States pairwise distinct: a state key maps to exactly one flow.
pub open spec fn unique_flow_states(s: Seq<PendingFlowView>) -> bool {
    forall|i: int, j: int|
        0 <= i < s.len() && 0 <= j < s.len() && i != j ==> (#[trigger] s[i]).state != (
        #[trigger] s[j]).state
}

/// Users pairwise distinct: a user has at most one pending flow.
pub open spec fn unique_flow_users(s: Seq<PendingFlowView>) -> bool {
    forall|i: int, j: int|
        0 <= i < s.len() && 0 <= j < s.len() && i != j ==> (#[trigger] s[i]).user_id != (
        #[trigger] s[j]).user_id
}

/// Removing a pending flow keeps both keys unique, removes its state and its
/// user, and leaves lookup under every other key unchanged.
pub proof fn lemma_flow_seq_remove(s: Seq<PendingFlowView>, j: int)
    requires
        unique_flow_states(s),
        unique_flow_users(s),
        0 <= j < s.len(),
    ensures
        unique_flow_states(s.remove(j)),
        unique_flow_users(s.remove(j)),
        !has_flow_state(s.remove(j), s[j].state),
        !has_flow_for_user(s.remove(j), s[j].user_id),
        forall|st: Seq<char>|
            st != s[j].state ==> #[trigger] find_flow_by_state(s.remove(j), st)
                == find_flow_by_state(s, st),
        forall|uid: i32|
            uid != s[j].user_id ==> #[trigger] find_flow_by_user(s.remove(j), uid)
                == find_flow_by_user(s, uid),
        (forall|i: int| 0 <= i < s.len() ==> (#[trigger] s[i]).created_at >= 0) ==> (forall|
            i: int,
        | 0 <= i < s.remove(j).len() ==> (#[trigger] s.remove(j)[i]).created_at >= 0),
{
    let t = s.remove(j);
    assert(forall|k: int| 0 <= k < j ==> t[k] == s[k]);
    assert(forall|k: int| j <= k < t.len() ==> t[k] == s[k + 1]);
    assert forall|a: int, b: int|
        0 <= a < t.len() && 0 <= b < t.len() && a != b implies (#[trigger] t[a]).state != (
    #[trigger] t[b]).state && t[a].user_id != t[b].user_id by {
        let a1: int = if a < j { a } else { a + 1 };
        let b1: int = if b < j { b } else { b + 1 };
        assert(t[a] == s[a1] && t[b] == s[b1]);
    }
    if has_flow_state(t, s[j].state) {
        let k = choose|k: int| 0 <= k < t.len() && (#[trigger] t[k]).state == s[j].state;
        let k1: int = if k < j { k } else { k + 1 };
        assert(t[k] == s[k1] && k1 != j);
    }
    if has_flow_for_user(t, s[j].user_id) {
        let k = choose|k: int| 0 <= k < t.len() && (#[trigger] t[k]).user_id == s[j].user_id;
        let k1: int = if k < j { k } else { k + 1 };
        assert(t[k] == s[k1] && k1 != j);
    }
    assert forall|st: Seq<char>| st != s[j].state implies #[trigger] find_flow_by_state(t, st)
        == find_flow_by_state(s, st) by {
        if has_flow_state(t, st) {
            let k = choose|k: int| 0 <= k < t.len() && (#[trigger] t[k]).state == st;
            let k1: int = if k < j { k } else { k + 1 };
            assert(s[k1].state == st);
            assert(has_flow_state(s, st));
            assert(flow_state_index(s, st) == k1);
            assert(flow_state_index(t, st) == k);
        } else if has_flow_state(s, st) {
            let k = choose|k: int| 0 <= k < s.len() && (#[trigger] s[k]).state == st;
            assert(k != j);
            let k1: int = if k < j { k } else { k - 1 };
            assert(t[k1] == s[k]);
            assert(has_flow_state(t, st));
        }
    }
    assert forall|uid: i32| uid != s[j].user_id implies #[trigger] find_flow_by_user(t, uid)
        == find_flow_by_user(s, uid) by {
        if has_flow_for_user(t, uid) {
            let k = choose|k: int| 0 <= k < t.len() && (#[trigger] t[k]).user_id == uid;
            let k1: int = if k < j { k } else { k + 1 };
            assert(s[k1].user_id == uid);
            assert(has_flow_for_user(s, uid));
            assert(flow_user_index(s, uid) == k1);
            assert(flow_user_index(t, uid) == k);
        } else if has_flow_for_user(s, uid) {
            let k = choose|k: int| 0 <= k < s.len() && (#[trigger] s[k]).user_id == uid;
            assert(k != j);
            let k1: int = if k < j { k } else { k - 1 };
            assert(t[k1] == s[k]);
            assert(has_flow_for_user(t, uid));
        }
    }
    if (forall|i: int| 0 <= i < s.len() ==> (#[trigger] s[i]).created_at >= 0) {
        assert forall|i: int| 0 <= i < t.len() implies (#[trigger] t[i]).created_at >= 0 by {
            let i1: int = if i < j { i } else { i + 1 };
            assert(t[i] == s[i1]);
        }
    }
}

/// Appending a flow under a fresh state for a user with no pending flow
/// keeps both keys unique, makes lookup under either key yield it, and
/// leaves lookup under every other key unchanged.
pub proof fn lemma_flow_seq_push(s: Seq<PendingFlowView>, v: PendingFlowView)
    requires
        unique_flow_states(s),
        unique_flow_users(s),
        !has_flow_state(s, v.state),
        !has_flow_for_user(s, v.user_id),
    ensures
        unique_flow_states(s.push(v)),
        unique_flow_users(s.push(v)),
        find_flow_by_state(s.push(v), v.state) == Some(v),
        find_flow_by_user(s.push(v), v.user_id) == Some(v),
        forall|st: Seq<char>|
            st != v.state ==> #[trigger] find_flow_by_state(s.push(v), st) == find_flow_by_state(
                s,
                st,
            ),
        forall|uid: i32|
            uid != v.user_id ==> #[trigger] find_flow_by_user(s.push(v), uid)
                == find_flow_by_user(s, uid),
{
    let t = s.push(v);
    assert(t[s.len() as int] == v);
    assert(forall|k: int| 0 <= k < s.len() ==> t[k] == s[k]);
    assert(has_flow_state(t, v.state));
    let w = flow_state_index(t, v.state);
    assert(0 <= w < t.len() && t[w].state == v.state);
    assert(w == s.len() as int);
    assert(has_flow_for_user(t, v.user_id));
    let w2 = flow_user_index(t, v.user_id);
    assert(0 <= w2 < t.len() && t[w2].user_id == v.user_id);
    assert(w2 == s.len() as int);
    assert forall|st: Seq<char>| st != v.state implies #[trigger] find_flow_by_state(t, st)
        == find_flow_by_state(s, st) by {
        if has_flow_state(t, st) {
            let k = choose|k: int| 0 <= k < t.len() && (#[trigger] t[k]).state == st;
            assert(k != s.len() as int);
            assert(s[k].state == st);
            assert(has_flow_state(s, st));
            assert(flow_state_index(s, st) == k);
            assert(flow_state_index(t, st) == k);
        } else if has_flow_state(s, st) {
            let k = choose|k: int| 0 <= k < s.len() && (#[trigger] s[k]).state == st;
            assert(t[k].state == st);
            assert(has_flow_state(t, st));
        }
    }
    assert forall|uid: i32| uid != v.user_id implies #[trigger] find_flow_by_user(t, uid)
        == find_flow_by_user(s, uid) by {
        if has_flow_for_user(t, uid) {
            let k = choose|k: int| 0 <= k < t.len() && (#[trigger] t[k]).user_id == uid;
            assert(k != s.len() as int);
            assert(s[k].user_id == uid);
            assert(has_flow_for_user(s, uid));
            assert(flow_user_index(s, uid) == k);
            assert(flow_user_index(t, uid) == k);
        } else if has_flow_for_user(s, uid) {
            let k = choose|k: int| 0 <= k < s.len() && (#[trigger] s[k]).user_id == uid;
            assert(t[k].user_id == uid);
            assert(has_flow_for_user(t, uid));
        }
    }
}

/// The provider authorization URL that embeds these components. Stands for
/// the URL built by oauth2's `authorize_url` for a given authorization
/// endpoint, client id, redirect URI, scope, CSRF state and PKCE challenge;
/// the challenge is itself derived deterministically from the verifier.
pub uninterp spec fn auth_url_of(
    auth_uri: Seq<char>,
    client_id: Seq<char>,
    redirect_uri: Seq<char>,
    scope: Seq<char>,
    state: Seq<char>,
    verifier: Seq<char>,
) -> Seq<char>;

/// Whether the provider's authorization endpoint, token endpoint and the
/// service's redirect URI all parse as URLs. Stands for the success of
/// oauth2's `AuthUrl::new`, `TokenUrl::new` and `RedirectUrl::new` (each a
/// `Url::parse`, deterministic in its string) on the three values.
pub uninterp spec fn provider_urls_parse(
    auth_uri: Seq<char>,
    token_uri: Seq<char>,
    redirect_uri: Seq<char>,
) -> bool;

/// A fresh cryptographically random CSRF state token of 32 alphanumeric
/// characters.
///
/// Relies on rand's `thread_rng` sampled through the `Alphanumeric`
/// distribution: `take(32)` of the infinite sample iterator yields exactly
/// 32 characters, each drawn from `A-Z`, `a-z`, `0-9`. Which of them come
/// out is random.
#[verifier::external_body]
pub fn random_state() -> (r: String)
    ensures
        r@.len() == 32,
        forall|i: int|
            0 <= i < r@.len() ==> (('0' <= #[trigger] r@[i] <= '9') || ('a' <= r@[i] <= 'z') || (
            'A' <= r@[i] <= 'Z')),
{
    rand::thread_rng().sample_iter(&Alphanumeric).take(32).map(char::from).collect()
}

/// A fresh random PKCE code verifier.
///
/// Relies on oauth2's `PkceCodeChallenge::new_random_sha256`, which encodes
/// 32 random bytes as unpadded base64url: always 43 ASCII characters. Which
/// characters come out is random.
#[verifier::external_body]
pub fn new_pkce_verifier() -> (r: String)
    ensures
        r@.len() == 43,
        forall|i: int| 0 <= i < r@.len() ==> (#[trigger] r@[i] as u32) < 128,
{
    let (_, verifier) = PkceCodeChallenge::new_random_sha256();
    verifier.secret().clone()
}

/// Builds the provider authorization URL embedding the SHA-256 challenge of
/// the verifier, the CSRF state, the service's redirect URI and the
/// requested scope.
///
/// Relies on oauth2's `BasicClient::new`, `PkceCodeChallenge::
/// from_code_verifier_sha256` and `AuthorizationRequest::url`, which are
/// deterministic in their inputs. `from_code_verifier_sha256` panics unless
/// the verifier is 43 to 128 bytes, which the precondition guarantees (an
/// ASCII verifier's byte length is its character length); `None` is
/// returned exactly when one of the two endpoints or the redirect URI fails
/// URL parsing.
#[verifier::external_body]
pub fn build_authorization_url(
    params: &OAuthParameters,
    redirect_uri: &String,
    scope: &str,
    state: &String,
    verifier: &String,
) -> (r: Option<String>)
    requires
        43 <= verifier@.len() <= 128,
        forall|i: int| 0 <= i < verifier@.len() ==> (#[trigger] verifier@[i] as u32) < 128,
    ensures
        r is Some <==> provider_urls_parse(params.auth_uri@, params.token_uri@, redirect_uri@),
        r matches Some(u) ==> u@ == auth_url_of(
            params.auth_uri@,
            params.client_id@,
            redirect_uri@,
            scope@,
            state@,
            verifier@,
        ),
{
    let client = BasicClient::new(
        ClientId::new(params.client_id.clone()),
        Some(ClientSecret::new(params.client_secret.clone())),
        AuthUrl::new(params.auth_uri.clone()).ok()?,
        Some(TokenUrl::new(params.token_uri.clone()).ok()?),
    ).set_redirect_uri(RedirectUrl::new(redirect_uri.clone()).ok()?);
    let challenge = PkceCodeChallenge::from_code_verifier_sha256(
        &PkceCodeVerifier::new(verifier.clone()),
    );
    let (url, _) = client
        .authorize_url(|| CsrfToken::new(state.clone()))
        .add_scope(Scope::new(scope.to_string()))
        .set_pkce_challenge(challenge)
        .url();
    Some(url.to_string())
}

} // verus!
