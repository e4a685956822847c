//! In-memory user store with the interface the manager consumes from
//! persistent storage: lookup by field, insert with a duplicate-username
//! signal, update and delete. Usernames are unique; ids are assigned
//! sequentially on insertion and never reused.

use vstd::prelude::*;

use crate::errors::DatabaseError;
use crate::user::{User, UserView};

verus! {

/// Whether some record in `s` carries this id.
pub open spec fn has_user_id(s: Seq<UserView>, id: i32) -> bool {
    exists|i: int| 0 <= i < s.len() && (#[trigger] s[i]).id == id
}

/// The index of the record carrying this id (meaningful when ids are unique).
pub open spec fn user_id_index(s: Seq<UserView>, id: i32) -> int {
    choose|i: int| 0 <= i < s.len() && (#[trigger] s[i]).id == id
}

/// The record carrying this id, if any.
pub open spec fn find_user_by_id(s: Seq<UserView>, id: i32) -> Option<UserView> {
    if has_user_id(s, id) {
        Some(s[user_id_index(s, id)])
    } else {
        None
    }
}

/// Whether some record in `s` carries this username.
pub open spec fn has_username(s: Seq<UserView>, username: Seq<char>) -> bool {
    exists|i: int| 0 <= i < s.len() && (#[trigger] s[i]).username == username
}

/// The index of the record carrying this username (meaningful when usernames
/// are unique).
pub open spec fn username_index(s: Seq<UserView>, username: Seq<char>) -> int {
    choose|i: int| 0 <= i < s.len() && (#[trigger] s[i]).username == username
}

/// The record carrying this username, if any.
pub open spec fn find_user_by_name(s: Seq<UserView>, username: Seq<char>) -> Option<UserView> {
    if has_username(s, username) {
        Some(s[username_index(s, username)])
    } else {
        None
    }
}

/// Ids pairwise distinct.
pub open spec fn unique_ids(s: Seq<UserView>) -> bool {
    forall|i: int, j: int|
        0 <= i < s.len() && 0 <= j < s.len() && i != j ==> (#[trigger] s[i]).id != (
        #[trigger] s[j]).id
}

/// Usernames pairwise distinct.
pub open spec fn unique_usernames(s: Seq<UserView>) -> bool {
    forall|i: int, j: int|
        0 <= i < s.len() && 0 <= j < s.len() && i != j ==> (#[trigger] s[i]).username != (
        #[trigger] s[j]).username
}

/// Removing a record keeps ids unique, removes its id, and leaves lookup of
/// every other id unchanged.
pub proof fn lemma_user_seq_remove(s: Seq<UserView>, j: int)
    requires
        unique_ids(s),
        0 <= j < s.len(),
    ensures
        unique_ids(s.remove(j)),
        !has_user_id(s.remove(j), s[j].id),
        forall|id: i32|
            id != s[j].id ==> #[trigger] find_user_by_id(s.remove(j), id) == find_user_by_id(
                s,
                id,
            ),
{
    let t = s.remove(j);
    assert(forall|k: int| 0 <= k < j ==> t[k] == s[k]);
    assert(forall|k: int| j <= k < t.len() ==> t[k] == s[k + 1]);
    assert forall|a: int, b: int|
        0 <= a < t.len() && 0 <= b < t.len() && a != b implies (#[trigger] t[a]).id != (
    #[trigger] t[b]).id by {
        let a1: int = if a < j { a } else { a + 1 };
        let b1: int = if b < j { b } else { b + 1 };
        assert(t[a] == s[a1] && t[b] == s[b1]);
    }
    if has_user_id(t, s[j].id) {
        let k = choose|k: int| 0 <= k < t.len() && (#[trigger] t[k]).id == s[j].id;
        let k1: int = if k < j { k } else { k + 1 };
        assert(t[k] == s[k1] && k1 != j);
    }
    assert forall|id: i32| id != s[j].id implies #[trigger] find_user_by_id(t, id)
        == find_user_by_id(s, id) by {
        if has_user_id(t, id) {
            let k = choose|k: int| 0 <= k < t.len() && (#[trigger] t[k]).id == id;
            let k1: int = if k < j { k } else { k + 1 };
            assert(s[k1].id == id);
            assert(has_user_id(s, id));
            assert(user_id_index(s, id) == k1);
            assert(user_id_index(t, id) == k);
        } else if has_user_id(s, id) {
            let k = choose|k: int| 0 <= k < s.len() && (#[trigger] s[k]).id == id;
            assert(k != j);
            let k1: int = if k < j { k } else { k - 1 };
            assert(t[k1] == s[k]);
            assert(has_user_id(t, id));
        }
    }
}

/// Appending a record with a fresh id keeps ids unique, makes lookup of that
/// id yield it, and leaves lookup of every other id unchanged.
pub proof fn lemma_user_seq_push(s: Seq<UserView>, v: UserView)
    requires
        unique_ids(s),
        !has_user_id(s, v.id),
    ensures
        unique_ids(s.push(v)),
        find_user_by_id(s.push(v), v.id) == Some(v),
        forall|id: i32|
            id != v.id ==> #[trigger] find_user_by_id(s.push(v), id) == find_user_by_id(s, id),
{
    let t = s.push(v);
    assert(t[s.len() as int] == v);
    assert(forall|k: int| 0 <= k < s.len() ==> t[k] == s[k]);
    assert(has_user_id(t, v.id));
    let w = user_id_index(t, v.id);
    assert(0 <= w < t.len() && t[w].id == v.id);
    assert(w == s.len() as int);
    assert forall|id: i32| id != v.id implies #[trigger] find_user_by_id(t, id)
        == find_user_by_id(s, id) by {
        if has_user_id(t, id) {
            let k = choose|k: int| 0 <= k < t.len() && (#[trigger] t[k]).id == id;
            assert(k != s.len() as int);
            assert(s[k].id == id);
            assert(has_user_id(s, id));
            assert(user_id_index(s, id) == k);
            assert(user_id_index(t, id) == k);
        } else if has_user_id(s, id) {
            let k = choose|k: int| 0 <= k < s.len() && (#[trigger] s[k]).id == id;
            assert(t[k].id == id);
            assert(has_user_id(t, id));
        }
    }
}

/// Appending a record with a fresh username makes lookup of that username
/// yield it, and leaves lookup of every other username unchanged.
pub proof fn lemma_user_seq_push_name(s: Seq<UserView>, v: UserView)
    requires
        unique_usernames(s),
        !has_username(s, v.username),
    ensures
        unique_usernames(s.push(v)),
        find_user_by_name(s.push(v), v.username) == Some(v),
        forall|nm: Seq<char>|
            nm != v.username ==> #[trigger] find_user_by_name(s.push(v), nm)
                == find_user_by_name(s, nm),
{
    let t = s.push(v);
    assert(t[s.len() as int] == v);
    assert(forall|k: int| 0 <= k < s.len() ==> t[k] == s[k]);
    assert(has_username(t, v.username));
    let w = username_index(t, v.username);
    assert(0 <= w < t.len() && t[w].username == v.username);
    assert(w == s.len() as int);
    assert forall|nm: Seq<char>| nm != v.username implies #[trigger] find_user_by_name(t, nm)
        == find_user_by_name(s, nm) by {
        if has_username(t, nm) {
            let k = choose|k: int| 0 <= k < t.len() && (#[trigger] t[k]).username == nm;
            assert(k != s.len() as int);
            assert(s[k].username == nm);
            assert(has_username(s, nm));
            assert(username_index(s, nm) == k);
            assert(username_index(t, nm) == k);
        } else if has_username(s, nm) {
            let k = choose|k: int| 0 <= k < s.len() && (#[trigger] s[k]).username == nm;
            assert(t[k].username == nm);
            assert(has_username(t, nm));
        }
    }
}

/// The in-memory user store.
pub struct UserStore {
    users: Vec<User>,
    next_id: i32,
}

impl View for UserStore {
    type V = Seq<UserView>;

    closed spec fn view(&self) -> Seq<UserView> {
        Seq::new(self.users@.len(), |i: int| self.users@[i]@)
    }
}

impl UserStore {
    /// The id the next inserted record will receive.
    pub closed spec fn spec_next_id(&self) -> i32 {
        self.next_id
    }

    /// Well-formedness: ids are unique, positive and below the next free id;
    /// usernames are unique.
    pub open spec fn wf(&self) -> bool {
        &&& 1 <= self.spec_next_id()
        &&& forall|i: int| 0 <= i < self@.len() ==> 1 <= (#[trigger] self@[i]).id < self.spec_next_id()
        &&& unique_ids(self@)
        &&& unique_usernames(self@)
    }

    /// An empty store.
    pub fn new() -> (r: UserStore)
        ensures
            r.wf(),
            r@ =~= Seq::<UserView>::empty(),
            r.spec_next_id() == 1,
    {
        UserStore { users: Vec::new(), next_id: 1 }
    }

    /// Creates a new user.
    ///
    /// The given record's fields are stored under a freshly assigned id; a
    /// record with the same username is a duplicate-key failure and leaves
    /// the store unchanged, as does an exhausted id space.
    pub fn new_user(&mut self, user: User) -> (r: Result<i32, DatabaseError>)
        requires
            old(self).wf(),
        ensures
            final(self).wf(),
            r is Ok <==> (!has_username(old(self)@, user@.username) && old(self).spec_next_id()
                < i32::MAX),
            match r {
                Ok(id) => {
                    &&& id == old(self).spec_next_id()
                    &&& final(self)@ =~= old(self)@.push(UserView { id, ..user@ })
                    &&& final(self).spec_next_id() == old(self).spec_next_id() + 1
                },
                Err(_) => final(self)@ =~= old(self)@ && final(self).spec_next_id() == old(
                    self,
                ).spec_next_id(),
            },
    {
        let name = user.get_username();
        let n = self.users.len();
        let ghost orig = *self;
        for i in 0..n
            invariant
                *self == orig,
                n == self@.len(),
                name@ == user@.username,
                forall|k: int| 0 <= k < i ==> (#[trigger] self@[k]).username != user@.username,
        {
            assert(self@[i as int] == self.users@[i as int]@);
            if self.users[i].get_username() == name {
                assert(has_username(self@, user@.username));
                return Err(DatabaseError::new("Failed to insert new user".to_owned()));
            }
        }
        assert(!has_username(self@, user@.username));
        if self.next_id == i32::MAX {
            return Err(DatabaseError::new("Failed to insert new user".to_owned()));
        }
        let id = self.next_id;
        let mut stored = user;
        stored.assign_id(id);
        let ghost pre = self@;
        self.users.push(stored);
        self.next_id = id + 1;
        assert(self@ =~= pre.push(UserView { id, ..user@ }));
        Ok(id)
    }

    /// Looks a user up by username; the returned record is an owned snapshot.
    pub fn get_user_by_username(&self, username: &String) -> (r: Result<User, DatabaseError>)
        requires
            self.wf(),
        ensures
            r is Ok <==> has_username(self@, username@),
            match r {
                Ok(u) => find_user_by_name(self@, username@) == Some(u@),
                Err(_) => find_user_by_name(self@, username@) is None,
            },
    {
        let n = self.users.len();
        for i in 0..n
            invariant
                n == self@.len(),
                self.wf(),
                forall|k: int| 0 <= k < i ==> (#[trigger] self@[k]).username != username@,
        {
            assert(self@[i as int] == self.users@[i as int]@);
            if self.users[i].get_username() == *username {
                let u = self.users[i].snapshot();
                proof {
                    assert(has_username(self@, username@));
                    let w = username_index(self@, username@);
                    assert(0 <= w < self@.len() && self@[w].username == username@);
                    assert(w == i as int);
                }
                return Ok(u);
            }
        }
        Err(DatabaseError::new("User not found".to_owned()))
    }

    /// Looks a user up by id; the returned record is an owned snapshot.
    pub fn get_user_by_id(&self, id: i32) -> (r: Result<User, DatabaseError>)
        requires
            self.wf(),
        ensures
            r is Ok <==> has_user_id(self@, id),
            match r {
                Ok(u) => find_user_by_id(self@, id) == Some(u@),
                Err(_) => find_user_by_id(self@, id) is None,
            },
    {
        let n = self.users.len();
        for i in 0..n
            invariant
                n == self@.len(),
                self.wf(),
                forall|k: int| 0 <= k < i ==> (#[trigger] self@[k]).id != id,
        {
            assert(self@[i as int] == self.users@[i as int]@);
            if self.users[i].get_id() == id {
                let u = self.users[i].snapshot();
                proof {
                    assert(has_user_id(self@, id));
                    let w = user_id_index(self@, id);
                    assert(0 <= w < self@.len() && self@[w].id == id);
                    assert(w == i as int);
                }
                return Ok(u);
            }
        }
        Err(DatabaseError::new("User not found".to_owned()))
    }

    /// Updates the username and password hash of an existing user. Fails on
    /// an unknown id, and on a username already taken by a different user.
    pub fn update_user(&mut self, id: i32, username: String, password_hash: String) -> (r: Result<
        (),
        DatabaseError,
    >)
        requires
            old(self).wf(),
        ensures
            final(self).wf(),
            final(self).spec_next_id() == old(self).spec_next_id(),
            r is Ok <==> (has_user_id(old(self)@, id) && (match find_user_by_name(
                old(self)@,
                username@,
            ) {
                Some(u) => u.id == id,
                None => true,
            })),
            r is Ok ==> final(self)@ =~= old(self)@.update(
                user_id_index(old(self)@, id),
                UserView {
                    username: username@,
                    password_hash: password_hash@,
                    ..old(self)@[user_id_index(old(self)@, id)]
                },
            ),
            r is Err ==> final(self)@ =~= old(self)@,
    {
        let n = self.users.len();
        let ghost orig = *self;
        let mut found: Option<usize> = None;
        for i in 0..n
            invariant
                *self == orig,
                n == self@.len(),
                self.wf(),
                match found {
                    Some(w) => w < i && self@[w as int].id == id,
                    None => forall|k: int| 0 <= k < i ==> (#[trigger] self@[k]).id != id,
                },
        {
            assert(self@[i as int] == self.users@[i as int]@);
            if found.is_none() && self.users[i].get_id() == id {
                found = Some(i);
            }
        }
        let idx = match found {
            Some(w) => w,
            None => {
                assert(!has_user_id(self@, id));
                return Err(DatabaseError::new("User not found".to_owned()));
            },
        };
        proof {
            assert(has_user_id(self@, id));
            let w = user_id_index(self@, id);
            assert(0 <= w < self@.len() && self@[w].id == id);
            assert(w == idx as int);
        }
        // The unique-username constraint: a different record may not already
        // carry the new name.
        for i in 0..n
            invariant
                *self == orig,
                n == self@.len(),
                self.wf(),
                idx < n,
                self@[idx as int].id == id,
                idx as int == user_id_index(self@, id),
                forall|k: int|
                    0 <= k < i && k != idx as int ==> (#[trigger] self@[k]).username != username@,
        {
            assert(self@[i as int] == self.users@[i as int]@);
            if i != idx && self.users[i].get_username() == username {
                proof {
                    assert(has_username(self@, username@));
                    let w = username_index(self@, username@);
                    assert(0 <= w < self@.len() && self@[w].username == username@);
                    assert(w == i as int);
                    assert(self@[w].id != id);
                }
                return Err(DatabaseError::new("Failed to update user".to_owned()));
            }
        }
        proof {
            if has_username(self@, username@) {
                let w = username_index(self@, username@);
                assert(0 <= w < self@.len() && self@[w].username == username@);
                assert(w == idx as int);
            }
        }
        let mut updated = self.users[idx].snapshot();
        updated.set_username(username);
        updated.set_password_hash(password_hash);
        let ghost pre = self@;
        self.users.remove(idx);
        self.users.insert(idx, updated);
        assert(self@ =~= pre.update(
            idx as int,
            UserView { username: username@, password_hash: password_hash@, ..pre[idx as int] },
        ));
        Ok(())
    }

    /// Deletes the user with this id; deleting an unknown id is not an error.
    pub fn delate_user(&mut self, user_id: i32) -> (r: Result<(), DatabaseError>)
        requires
            old(self).wf(),
        ensures
            final(self).wf(),
            final(self).spec_next_id() == old(self).spec_next_id(),
            r is Ok,
            !has_user_id(old(self)@, user_id) ==> final(self)@ =~= old(self)@,
            has_user_id(old(self)@, user_id) ==> final(self)@ =~= old(self)@.remove(
                user_id_index(old(self)@, user_id),
            ),
    {
        let n = self.users.len();
        let ghost orig = *self;
        for i in 0..n
            invariant
                *self == orig,
                n == self@.len(),
                self.wf(),
                forall|k: int| 0 <= k < i ==> (#[trigger] self@[k]).id != user_id,
        {
            assert(self@[i as int] == self.users@[i as int]@);
            if self.users[i].get_id() == user_id {
                proof {
                    assert(has_user_id(self@, user_id));
                    let w = user_id_index(self@, user_id);
                    assert(0 <= w < self@.len() && self@[w].id == user_id);
                    assert(w == i as int);
                }
                let ghost pre = self@;
                self.users.remove(i);
                assert(self@ =~= pre.remove(i as int));
                return Ok(());
            }
        }
        assert(!has_user_id(self@, user_id));
        Ok(())
    }

    /// All records, as owned snapshots, in insertion order.
    pub fn get_all_users(&self) -> (r: Result<Vec<User>, DatabaseError>)
        ensures
            match r {
                Ok(v) => v@.len() == self@.len() && (forall|i: int|
                    0 <= i < v@.len() ==> (#[trigger] v@[i])@ == self@[i]),
                Err(_) => false,
            },
    {
        let n = self.users.len();
        let mut out: Vec<User> = Vec::new();
        for i in 0..n
            invariant
                n == self@.len(),
                out@.len() == i,
                forall|k: int| 0 <= k < i ==> (#[trigger] out@[k])@ == self@[k],
        {
            assert(self@[i as int] == self.users@[i as int]@);
            out.push(self.users[i].snapshot());
        }
        Ok(out)
    }
}

} // verus!
