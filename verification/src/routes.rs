//! Request routing for the user API: maps a request path onto the operation
//! that handles it, by the path's trailing segment.

use vstd::prelude::*;

verus! {

/// Whether `s` ends with `suffix`.
pub open spec fn spec_has_suffix(s: Seq<char>, suffix: Seq<char>) -> bool {
    s.len() >= suffix.len() && s.subrange(s.len() - suffix.len(), s.len() as int) == suffix
}

/// Checks whether the path ends with the given suffix.
pub fn has_suffix(s: &String, suffix: &str) -> (r: bool)
    ensures
        r == spec_has_suffix(s@, suffix@),
{
    let n = s.as_str().unicode_len();
    let m = suffix.unicode_len();
    if n < m {
        return false;
    }
    let tail = s.as_str().substring_char(n - m, n).to_owned();
    tail == suffix.to_owned()
}

/// The operations of the user API.
#[derive(Clone, Copy, Debug, PartialEq, Eq, Structural)]
pub enum UserApiRoute {
    NewUser,
    DeleteUser,
    ModifyUser,
    Login,
    ValidateToken,
    OAuthUrl,
    OAuthCallback,
    NotFound,
}

/// Where a POST to this path is dispatched.
pub open spec fn spec_route_users_post(p: Seq<char>) -> UserApiRoute {
    if spec_has_suffix(p, "/new"@) {
        UserApiRoute::NewUser
    } else if spec_has_suffix(p, "/delete"@) {
        UserApiRoute::DeleteUser
    } else if spec_has_suffix(p, "/modify"@) {
        UserApiRoute::ModifyUser
    } else if spec_has_suffix(p, "/login"@) {
        UserApiRoute::Login
    } else {
        UserApiRoute::NotFound
    }
}

/// Dispatches a POST to the user API by the path's last segment.
pub fn route_users_post(path: &String) -> (r: UserApiRoute)
    ensures
        r == spec_route_users_post(path@),
{
    if has_suffix(path, "/new") {
        UserApiRoute::NewUser
    } else if has_suffix(path, "/delete") {
        UserApiRoute::DeleteUser
    } else if has_suffix(path, "/modify") {
        UserApiRoute::ModifyUser
    } else if has_suffix(path, "/login") {
        UserApiRoute::Login
    } else {
        UserApiRoute::NotFound
    }
}

/// Where a GET to this path is dispatched.
pub open spec fn spec_route_users_get(p: Seq<char>) -> UserApiRoute {
    if spec_has_suffix(p, "users/validate"@) {
        UserApiRoute::ValidateToken
    } else if spec_has_suffix(p, "users/oauth/url"@) {
        UserApiRoute::OAuthUrl
    } else if spec_has_suffix(p, "users/oauth/callback"@) {
        UserApiRoute::OAuthCallback
    } else {
        UserApiRoute::NotFound
    }
}

/// Dispatches a GET to the user API by the path's trailing segments.
pub fn route_users_get(path: &String) -> (r: UserApiRoute)
    ensures
        r == spec_route_users_get(path@),
{
    if has_suffix(path, "users/validate") {
        UserApiRoute::ValidateToken
    } else if has_suffix(path, "users/oauth/url") {
        UserApiRoute::OAuthUrl
    } else if has_suffix(path, "users/oauth/callback") {
        UserApiRoute::OAuthCallback
    } else {
        UserApiRoute::NotFound
    }
}

} // verus!
