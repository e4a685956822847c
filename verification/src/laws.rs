//! The security laws of the manager, proved from the contracts of its
//! operations: what registration guarantees to a later login, what a login
//! guarantees to later request authentication, how a newer login revokes an
//! older token, and how consumption and sweeping make delegation states
//! single-use.

use vstd::prelude::*;

use crate::delegation::{find_flow_by_state, find_flow_by_user, flow_user_index,
    has_flow_for_user, PendingFlowView};
use crate::hashing::bcrypt_accepts;
use crate::manager::{spec_bearer_token, UserManager, FLOW_TTL_SECS};
use crate::store::{find_user_by_id, find_user_by_name, has_username, lemma_user_seq_push_name,
    unique_usernames};
use crate::user::UserView;
use crate::token::token_claims_of;
use crate::errors::UserManagerError;

verus! {

/// Law: registering a previously unknown username with valid credentials —
/// which appends a record whose stored hash verifies the password — makes a
/// login with the same username and password accepted.
pub proof fn lemma_register_enables_login(
    users0: Seq<UserView>,
    users1: Seq<UserView>,
    username: Seq<char>,
    password: Seq<char>,
    new_rec: UserView,
)
    requires
        unique_usernames(users0),
        !has_username(users0, username),
        new_rec.username == username,
        bcrypt_accepts(password, new_rec.password_hash),
        users1 == users0.push(new_rec),
    ensures
        UserManager::spec_login_accepted(users1, username, password),
        find_user_by_name(users1, username) == Some(new_rec),
{
    lemma_user_seq_push_name(users0, new_rec);
}

/// Law: a token whose claims decode to `(id, exp)` under the manager's
/// secret, and which is cached as the current session token of user `id`,
/// is accepted by request authentication under a `Bearer` header at any
/// time up to `exp`.
pub proof fn lemma_cached_token_authenticates(
    m: UserManager,
    id: i32,
    token: Seq<char>,
    exp: i64,
    at: i64,
)
    requires
        token_claims_of(m.spec_secret(), token) == Some((id, exp)),
        find_user_by_id(m.sessions(), id) matches Some(u) && u.session_token == Some(token),
        at <= exp,
    ensures
        m.spec_request_user(Some("Bearer "@ + token), at) == Some(id),
{
    reveal_strlit("Bearer ");
    let h = "Bearer "@ + token;
    assert(h.subrange(0, 7) =~= "Bearer "@);
    assert(h.subrange(7, h.len() as int) =~= token);
    assert(spec_bearer_token(h) == Some(token));
}

/// Law: login failure is non-distinguishable — the error a wrong password
/// produces and the error an unknown username produces are the same class
/// with the same message, as login's contract pins both to one value.
pub proof fn lemma_login_failures_indistinguishable(e1: UserManagerError, e2: UserManagerError)
    requires
        e1 matches UserManagerError::AuthenticationError(m1) && m1@
            == "Invalid username or password"@,
        e2 matches UserManagerError::AuthenticationError(m2) && m2@
            == "Invalid username or password"@,
    ensures
        e1 is AuthenticationError <==> e2 is AuthenticationError,
        e1.spec_message() == e2.spec_message(),
{
}

/// Law: issuing a second token for the same user invalidates the first.
/// When two tokens for one user decode to different expiries they are
/// different strings, and once the session caches the second, request
/// authentication rejects the first even though it is still well-signed —
/// and even if it is unexpired.
pub proof fn lemma_second_login_invalidates_first(
    m: UserManager,
    id: i32,
    t1: Seq<char>,
    t2: Seq<char>,
    e1: i64,
    e2: i64,
    at: i64,
)
    requires
        token_claims_of(m.spec_secret(), t1) == Some((id, e1)),
        token_claims_of(m.spec_secret(), t2) == Some((id, e2)),
        e1 != e2,
        find_user_by_id(m.sessions(), id) matches Some(u) && u.session_token == Some(t2),
    ensures
        t1 != t2,
        m.spec_request_user(Some("Bearer "@ + t1), at) is None,
{
    if t1 == t2 {
        assert(token_claims_of(m.spec_secret(), t1) == token_claims_of(m.spec_secret(), t2));
    }
    reveal_strlit("Bearer ");
    let h = "Bearer "@ + t1;
    assert(h.subrange(0, 7) =~= "Bearer "@);
    assert(h.subrange(7, h.len() as int) =~= t1);
    assert(spec_bearer_token(h) == Some(t1));
}

/// Law: a token whose expiry has elapsed fails request authentication even
/// while it is still cached as the session's current token.
pub proof fn lemma_expired_token_rejected(
    m: UserManager,
    id: i32,
    token: Seq<char>,
    exp: i64,
    at: i64,
)
    requires
        token_claims_of(m.spec_secret(), token) == Some((id, exp)),
        exp < at,
    ensures
        m.spec_request_user(Some("Bearer "@ + token), at) is None,
{
    reveal_strlit("Bearer ");
    let h = "Bearer "@ + token;
    assert(h.subrange(0, 7) =~= "Bearer "@);
    assert(h.subrange(7, h.len() as int) =~= token);
    assert(spec_bearer_token(h) == Some(token));
}

/// Law: beginning a second handshake for the same user leaves exactly one
/// pending flow for that user — the new one — and the state of the first
/// handshake is no longer present, so completing it fails as unknown.
/// `flows1` is the flow table after the first handshake began, `flows2`
/// after the second; the premises are the second begin's postconditions.
pub proof fn lemma_second_begin_supersedes_first(
    flows1: Seq<PendingFlowView>,
    flows2: Seq<PendingFlowView>,
    id: i32,
    s1: Seq<char>,
    s2: Seq<char>,
    f1: PendingFlowView,
    f2: PendingFlowView,
)
    requires
        s1 != s2,
        find_flow_by_state(flows1, s1) == Some(f1),
        f1.user_id == id,
        f2.user_id == id,
        find_flow_by_state(flows2, s2) == Some(f2),
        find_flow_by_user(flows2, id) == Some(f2),
        crate::delegation::unique_flow_users(flows2),
        forall|st: Seq<char>|
            st != s2 ==> #[trigger] find_flow_by_state(flows2, st) == (match find_flow_by_state(
                flows1,
                st,
            ) {
                Some(g) => if g.user_id == id {
                    None
                } else {
                    Some(g)
                },
                None => None,
            }),
    ensures
        find_flow_by_state(flows2, s1) is None,
        forall|f: PendingFlowView| flows2.contains(f) && f.user_id == id ==> f == f2,
{
    assert(find_flow_by_state(flows2, s1) is None);
    assert forall|f: PendingFlowView| flows2.contains(f) && f.user_id == id implies f == f2 by {
        let k = choose|k: int| 0 <= k < flows2.len() && flows2[k] == f;
        assert(has_flow_for_user(flows2, id));
        let w = flow_user_index(flows2, id);
        assert(0 <= w < flows2.len() && flows2[w].user_id == id);
        assert(k == w);
        assert(flows2[w] == f2);
    }
}

/// Law: a pending flow strictly older than the TTL is gone after the sweep,
/// so its state subsequently fails completion as unknown, even if it was
/// never explicitly resolved. The premise is the sweep's postcondition.
pub proof fn lemma_sweep_removes_stale_flow(
    flows_before: Seq<PendingFlowView>,
    flows_after: Seq<PendingFlowView>,
    st: Seq<char>,
    f: PendingFlowView,
    now: i64,
)
    requires
        find_flow_by_state(flows_before, st) == Some(f),
        f.created_at + FLOW_TTL_SECS < now,
        forall|s: Seq<char>|
            #[trigger] find_flow_by_state(flows_after, s) == (match find_flow_by_state(
                flows_before,
                s,
            ) {
                Some(g) => if g.created_at + FLOW_TTL_SECS < now {
                    None
                } else {
                    Some(g)
                },
                None => None,
            }),
    ensures
        find_flow_by_state(flows_after, st) is None,
{
}

} // verus!
