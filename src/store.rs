//! The user store: the whole collection of players held in memory, looked up
//! by id, by access token or by name, and changed one record at a time.
use vstd::prelude::*;
use crate::picture::StoreError;
use crate::text::str_eq;
use crate::user::{User, UserModel};

verus! {

/// The field by which a player is looked up.
#[derive(Clone, Copy, Debug, PartialEq, Eq, Structural)]
pub enum UserKey {
    Id,
    AccessToken,
    Username,
}

pub open spec fn key_of(u: UserModel, k: UserKey) -> Seq<char> {
    match k {
        UserKey::Id => u.id,
        UserKey::AccessToken => u.access_token,
        UserKey::Username => u.username,
    }
}

/// Index of the first player of `s` whose field `k` is `v`.
pub open spec fn first_with(s: Seq<UserModel>, k: UserKey, v: Seq<char>) -> Option<int> {
    if exists|i: int| 0 <= i < s.len() && key_of(s[i], k) == v {
        Some(
            choose|i: int|
                0 <= i < s.len() && key_of(s[i], k) == v && forall|j: int|
                    0 <= j < i ==> key_of(s[j], k) != v,
        )
    } else {
        None
    }
}

/// The players of `s` with another id than `id`, in their order.
pub open spec fn others(s: Seq<UserModel>, id: Seq<char>) -> Seq<UserModel> {
    s.filter(|u: UserModel| u.id != id)
}

/// All players, in the order of the stored collection.
pub struct UserRepository {
    pub users: Vec<User>,
}

impl View for UserRepository {
    type V = Seq<UserModel>;

    open spec fn view(&self) -> Seq<UserModel> {
        self.users@.map_values(|u: User| u@)
    }
}

fn key_str(u: &User, k: UserKey) -> (r: &str)
    ensures
        r@ == key_of(u@, k),
{
    match k {
        UserKey::Id => u.id.as_str(),
        UserKey::AccessToken => u.access_token.as_str(),
        UserKey::Username => u.username.as_str(),
    }
}

/// The index that `first_with` gives holds a player with that key.
pub proof fn lemma_first_with_found(s: Seq<UserModel>, k: UserKey, v: Seq<char>)
    ensures
        first_with(s, k, v) matches Some(i) ==> 0 <= i < s.len() && key_of(s[i], k) == v,
{
    if exists|i: int| 0 <= i < s.len() && key_of(s[i], k) == v {
        let i = choose|i: int| 0 <= i < s.len() && key_of(s[i], k) == v;
        lemma_first_exists(s, k, v, i);
    }
}

proof fn lemma_first_exists(s: Seq<UserModel>, k: UserKey, v: Seq<char>, i: int)
    requires
        0 <= i < s.len(),
        key_of(s[i], k) == v,
    ensures
        exists|m: int|
            0 <= m < s.len() && key_of(s[m], k) == v && forall|j: int| 0 <= j < m ==> key_of(s[j], k) != v,
    decreases i,
{
    if exists|j: int| 0 <= j < i && key_of(s[j], k) == v {
        let j = choose|j: int| 0 <= j < i && key_of(s[j], k) == v;
        lemma_first_exists(s, k, v, j);
    } else {
        assert(forall|j: int| 0 <= j < i ==> key_of(s[j], k) != v);
    }
}

proof fn lemma_first_with_unique(s: Seq<UserModel>, k: UserKey, v: Seq<char>, i: int)
    requires
        0 <= i < s.len(),
        key_of(s[i], k) == v,
        forall|j: int| 0 <= j < i ==> key_of(s[j], k) != v,
    ensures
        first_with(s, k, v) == Some(i),
{
    let c = choose|c: int|
        0 <= c < s.len() && key_of(s[c], k) == v && forall|j: int| 0 <= j < c ==> key_of(s[j], k) != v;
    assert(0 <= c < s.len() && key_of(s[c], k) == v && forall|j: int| 0 <= j < c ==> key_of(s[j], k) != v);
    if c < i {
        assert(key_of(s[c], k) != v);
    } else if i < c {
        assert(key_of(s[i], k) != v);
    }
}

impl UserRepository {
    pub fn new(users: Vec<User>) -> (r: UserRepository)
        ensures
            r.users@ == users@,
    {
        UserRepository { users }
    }

    /// Index of the first player whose field `k` is `v`.
    pub fn find(&self, k: UserKey, v: &str) -> (r: Option<usize>)
        ensures
            r matches Some(i) ==> i < self.users@.len() && first_with(self@, k, v@) == Some(i as int),
            r is None ==> first_with(self@, k, v@) is None,
    {
        let mut i: usize = 0;
        while i < self.users.len()
            invariant
                i <= self.users@.len(),
                forall|j: int| 0 <= j < i ==> key_of(self@[j], k) != v@,
            decreases self.users@.len() - i,
        {
            if str_eq(key_str(&self.users[i], k), v) {
                proof {
                    lemma_first_with_unique(self@, k, v@, i as int);
                }
                return Some(i);
            }
            i = i + 1;
        }
        assert(!exists|j: int| 0 <= j < self@.len() && key_of(self@[j], k) == v@);
        None
    }

    /// A copy of the first player whose field `k` is `v`.
    pub fn get_by(&self, k: UserKey, v: &str) -> (r: Option<User>)
        ensures
            match first_with(self@, k, v@) {
                Some(i) => (r matches Some(u) && u@ == self@[i]),
                None => r is None,
            },
    {
        match self.find(k, v) {
            Some(i) => {
                let u = self.users[i].duplicate();
                assert(self@[i as int] == self.users@[i as int]@);
                Some(u)
            },
            None => None,
        }
    }

    pub fn get_user_by_id(&self, id: &str) -> (r: Option<User>)
        ensures
            match first_with(self@, UserKey::Id, id@) {
                Some(i) => (r matches Some(u) && u@ == self@[i]),
                None => r is None,
            },
    {
        self.get_by(UserKey::Id, id)
    }

    pub fn get_user_by_bearer(&self, bearer_token: &str) -> (r: Option<User>)
        ensures
            match first_with(self@, UserKey::AccessToken, bearer_token@) {
                Some(i) => (r matches Some(u) && u@ == self@[i]),
                None => r is None,
            },
    {
        self.get_by(UserKey::AccessToken, bearer_token)
    }

    pub fn get_user_by_username(&self, username: &str) -> (r: Option<User>)
        ensures
            match first_with(self@, UserKey::Username, username@) {
                Some(i) => (r matches Some(u) && u@ == self@[i]),
                None => r is None,
            },
    {
        self.get_by(UserKey::Username, username)
    }

    pub fn get_all_users(&self) -> (r: Vec<User>)
        ensures
            r@.map_values(|u: User| u@) == self@,
    {
        let mut out: Vec<User> = Vec::new();
        let mut i: usize = 0;
        while i < self.users.len()
            invariant
                i <= self.users@.len(),
                out@.map_values(|u: User| u@) =~= self@.subrange(0, i as int),
            decreases self.users@.len() - i,
        {
            let ghost before = out@;
            out.push(self.users[i].duplicate());
            assert(out@.map_values(|u: User| u@) =~= before.map_values(|u: User| u@).push(
                self@[i as int],
            ));
            i = i + 1;
        }
        out
    }

    /// Adds a player whose id is not stored yet.
    pub fn create_user(&mut self, user: User) -> (r: Result<(), StoreError>)
        ensures
            first_with(old(self)@, UserKey::Id, user.id@) is Some ==> r == Err::<(), StoreError>(
                StoreError::AlreadyExists,
            ) && final(self)@ == old(self)@,
            first_with(old(self)@, UserKey::Id, user.id@) is None ==> r is Ok && final(self)@ == old(
                self,
            )@.push(user@),
    {
        if self.find(UserKey::Id, user.id.as_str()).is_some() {
            return Err(StoreError::AlreadyExists);
        }
        self.users.push(user);
        assert(self@ =~= old(self)@.push(user@));
        Ok(())
    }

    /// Copies the players with another id than `id`.
    fn without(&self, id: &str) -> (r: Vec<User>)
        ensures
            r@.map_values(|u: User| u@) == others(self@, id@),
    {
        let mut out: Vec<User> = Vec::new();
        let mut i: usize = 0;
        while i < self.users.len()
            invariant
                i <= self.users@.len(),
                out@.map_values(|u: User| u@) == others(self@.subrange(0, i as int), id@),
            decreases self.users@.len() - i,
        {
            proof {
                reveal(Seq::filter);
                assert(self@.subrange(0, i + 1).drop_last() =~= self@.subrange(0, i as int));
            }
            if !str_eq(self.users[i].id.as_str(), id) {
                let ghost before = out@;
                out.push(self.users[i].duplicate());
                assert(out@.map_values(|u: User| u@) =~= before.map_values(|u: User| u@).push(
                    self@[i as int],
                ));
            }
            i = i + 1;
        }
        assert(self@.subrange(0, self@.len() as int) =~= self@);
        out
    }

    /// Replaces the stored player of the same id by `user`, placed last.
    pub fn update_user(&mut self, user: User) -> (r: Result<(), StoreError>)
        ensures
            first_with(old(self)@, UserKey::Id, user.id@) is None ==> r == Err::<(), StoreError>(
                StoreError::NotFound,
            ) && final(self)@ == old(self)@,
            first_with(old(self)@, UserKey::Id, user.id@) is Some ==> r is Ok && final(self)@ == others(
                old(self)@,
                user.id@,
            ).push(user@),
    {
        if self.find(UserKey::Id, user.id.as_str()).is_none() {
            return Err(StoreError::NotFound);
        }
        let mut kept = self.without(user.id.as_str());
        let ghost before = kept@;
        let ghost m = user@;
        kept.push(user);
        assert(kept@.map_values(|u: User| u@) =~= before.map_values(|u: User| u@).push(m));
        self.users = kept;
        Ok(())
    }

    /// Removes the player of the id of `user`.
    pub fn delete_user(&mut self, user: &User)
        ensures
            final(self)@ == others(old(self)@, user.id@),
    {
        self.users = self.without(user.id.as_str());
    }
}

} // verus!
