//! User records and the provider-side account attached to them.
//!
//! A `User` is a snapshot of the persisted record (id, username, password
//! hash, creation time) plus the two per-session fields the manager maintains:
//! the currently valid session token and, after a completed delegation
//! handshake, the provider account (`GUser`) whose `auth_token` is the
//! provider access token.

use vstd::prelude::*;

verus! {

/// Mathematical view of a `GUser`.
pub ghost struct GUserView {
    pub auth_token: Seq<char>,
    pub name: Seq<char>,
    pub pfp_url: Seq<char>,
}

/// The provider-side account of a user: the provider access token obtained by
/// a completed delegation handshake, the display name and the profile
/// picture URL.
#[derive(Debug)]
pub struct GUser {
    auth_token: String,
    name: String,
    pfp_url: String,
}

impl View for GUser {
    type V = GUserView;

    closed spec fn view(&self) -> GUserView {
        GUserView { auth_token: self.auth_token@, name: self.name@, pfp_url: self.pfp_url@ }
    }
}

impl GUser {
    pub fn new(auth_token: String, username: String, pfp_url: String) -> (r: GUser)
        ensures
            r@ == (GUserView { auth_token: auth_token@, name: username@, pfp_url: pfp_url@ }),
    {
        GUser { auth_token, name: username, pfp_url }
    }

    pub fn get_name(&self) -> (r: &str)
        ensures
            r@ == self@.name,
    {
        self.name.as_str()
    }

    pub fn get_auth_token(&self) -> (r: &str)
        ensures
            r@ == self@.auth_token,
    {
        self.auth_token.as_str()
    }

    pub fn get_pfp_url(&self) -> (r: &str)
        ensures
            r@ == self@.pfp_url,
    {
        self.pfp_url.as_str()
    }

    pub fn set_auth_token(&mut self, auth_token: String)
        ensures
            final(self)@ == (GUserView { auth_token: auth_token@, ..old(self)@ }),
    {
        self.auth_token = auth_token;
    }

    pub fn set_name(&mut self, name: String)
        ensures
            final(self)@ == (GUserView { name: name@, ..old(self)@ }),
    {
        self.name = name;
    }

    pub fn set_pfp_url(&mut self, pfp_url: String)
        ensures
            final(self)@ == (GUserView { pfp_url: pfp_url@, ..old(self)@ }),
    {
        self.pfp_url = pfp_url;
    }

    /// An owned copy with the same view.
    pub fn snapshot(&self) -> (r: GUser)
        ensures
            r@ == self@,
    {
        GUser {
            auth_token: self.auth_token.clone(),
            name: self.name.clone(),
            pfp_url: self.pfp_url.clone(),
        }
    }
}

/// Mathematical view of a `User`.
pub ghost struct UserView {
    pub id: i32,
    pub username: Seq<char>,
    pub password_hash: Seq<char>,
    pub created_at: Option<i64>,
    pub guser: Option<GUserView>,
    pub session_token: Option<Seq<char>>,
}

/// A user record: the persisted identity fields plus the in-memory session
/// fields maintained by the manager.
#[derive(Debug)]
pub struct User {
    id: i32,
    username: String,
    password_hash: String,
    created_at: Option<i64>,
    guser: Option<GUser>,
    session_token: Option<String>,
}

impl View for User {
    type V = UserView;

    closed spec fn view(&self) -> UserView {
        UserView {
            id: self.id,
            username: self.username@,
            password_hash: self.password_hash@,
            created_at: self.created_at,
            guser: match self.guser {
                Some(g) => Some(g@),
                None => None,
            },
            session_token: match self.session_token {
                Some(t) => Some(t@),
                None => None,
            },
        }
    }
}

impl User {
    /// A fresh, not yet persisted record: the store assigns the real id on
    /// insertion, so until then the id is the sentinel `-1` and the creation
    /// time is unset.
    pub fn new(username: String, password_hash: String) -> (r: User)
        ensures
            r@ == (UserView {
                id: -1i32,
                username: username@,
                password_hash: password_hash@,
                created_at: None,
                guser: None,
                session_token: None,
            }),
    {
        User {
            id: -1,
            username,
            password_hash,
            created_at: None,
            guser: None,
            session_token: None,
        }
    }

    pub fn get_username(&self) -> (r: String)
        ensures
            r@ == self@.username,
    {
        self.username.clone()
    }

    pub fn get_password_hash(&self) -> (r: String)
        ensures
            r@ == self@.password_hash,
    {
        self.password_hash.clone()
    }

    pub fn get_id(&self) -> (r: i32)
        ensures
            r == self@.id,
    {
        self.id
    }

    pub fn get_created_at(&self) -> (r: Option<i64>)
        ensures
            r == self@.created_at,
    {
        self.created_at
    }

    pub fn get_guser(&self) -> (r: Option<GUser>)
        ensures
            match r {
                Some(g) => self@.guser == Some(g@),
                None => self@.guser is None,
            },
    {
        match &self.guser {
            Some(g) => Some(g.snapshot()),
            None => None,
        }
    }

    pub fn get_session_token(&self) -> (r: Option<String>)
        ensures
            match r {
                Some(t) => self@.session_token == Some(t@),
                None => self@.session_token is None,
            },
    {
        match &self.session_token {
            Some(t) => Some(t.clone()),
            None => None,
        }
    }

    pub fn set_username(&mut self, new_username: String)
        ensures
            final(self)@ == (UserView { username: new_username@, ..old(self)@ }),
    {
        self.username = new_username;
    }

    pub fn set_password_hash(&mut self, new_password_hash: String)
        ensures
            final(self)@ == (UserView { password_hash: new_password_hash@, ..old(self)@ }),
    {
        self.password_hash = new_password_hash;
    }

    pub fn set_guser(&mut self, guser: GUser)
        ensures
            final(self)@ == (UserView { guser: Some(guser@), ..old(self)@ }),
    {
        self.guser = Some(guser);
    }

    pub fn set_session_token(&mut self, session_token: String)
        ensures
            final(self)@ == (UserView { session_token: Some(session_token@), ..old(self)@ }),
    {
        self.session_token = Some(session_token);
    }

    /// Stamps the id the store assigned on insertion.
    pub(crate) fn assign_id(&mut self, id: i32)
        ensures
            final(self)@ == (UserView { id, ..old(self)@ }),
    {
        self.id = id;
    }

    /// An owned copy with the same view.
    pub fn snapshot(&self) -> (r: User)
        ensures
            r@ == self@,
    {
        User {
            id: self.id,
            username: self.username.clone(),
            password_hash: self.password_hash.clone(),
            created_at: self.created_at,
            guser: match &self.guser {
                Some(g) => Some(g.snapshot()),
                None => None,
            },
            session_token: match &self.session_token {
                Some(t) => Some(t.clone()),
                None => None,
            },
        }
    }
}

} // verus!
