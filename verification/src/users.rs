//! The user directory: registered accounts with unique identifiers,
//! usernames and email addresses, and the self-service operations on
//! them. Uniqueness is enforced inside the store operation, as for
//! links; an update touches only the supplied fields.

use vstd::prelude::*;

use crate::errors::StoreError;

verus! {

/// A registered account, as the directory returns it.
#[derive(Debug)]
pub struct User {
    /// Unique identifier.
    pub id: u128,
    /// Name to be displayed, mostly a real name.
    pub display_name: String,
    /// Unique login name.
    pub username: String,
    /// Stored credential: the stripped argon2 verification string. Opaque
    /// and never serialized outward.
    pub password_hash: Vec<u8>,
    /// Unique contact address.
    pub email: String,
    /// Whether the address has been confirmed.
    pub email_verified: bool,
    /// Whether the account is active.
    pub active: bool,
    pub created_at: i64,
    pub updated_at: i64,
}

/// Mathematical image of a `User`.
pub struct UserView {
    pub id: u128,
    pub display_name: Seq<char>,
    pub username: Seq<char>,
    pub password_hash: Seq<u8>,
    pub email: Seq<char>,
    pub email_verified: bool,
    pub active: bool,
    pub created_at: i64,
    pub updated_at: i64,
}

impl View for User {
    type V = UserView;

    open spec fn view(&self) -> UserView {
        UserView {
            id: self.id,
            display_name: self.display_name@,
            username: self.username@,
            password_hash: self.password_hash@,
            email: self.email@,
            email_verified: self.email_verified,
            active: self.active,
            created_at: self.created_at,
            updated_at: self.updated_at,
        }
    }
}

impl Clone for User {
    /// A clone carries the same stored fields.
    fn clone(&self) -> (r: Self)
        ensures
            r@ == self@,
    {
        let password_hash = clone_bytes(&self.password_hash);
        User {
            id: self.id,
            display_name: self.display_name.clone(),
            username: self.username.clone(),
            password_hash,
            email: self.email.clone(),
            email_verified: self.email_verified,
            active: self.active,
            created_at: self.created_at,
            updated_at: self.updated_at,
        }
    }
}

/// Byte-for-byte copy of a byte vector.
pub fn clone_bytes(v: &Vec<u8>) -> (r: Vec<u8>)
    ensures
        r@ == v@,
{
    let mut r: Vec<u8> = Vec::new();
    let mut i: usize = 0;
    while i < v.len()
        invariant
            0 <= i <= v@.len(),
            r@ == v@.take(i as int),
        decreases v@.len() - i,
    {
        r.push(v[i]);
        proof {
            assert(v@.take(i + 1) =~= v@.take(i as int).push(v@[i as int]));
        }
        i += 1;
    }
    proof {
        assert(r@ =~= v@);
    }
    r
}

/// Payload for inserting an account.
#[derive(Debug)]
pub struct NewUser {
    /// Name to be displayed, mostly a real name.
    pub display_name: String,
    /// Login name.
    pub username: String,
    /// Stored credential, already derived and stripped.
    pub password_hash: Vec<u8>,
    /// Contact address.
    pub email: String,
}

/// Mathematical image of an optional string.
pub open spec fn opt_str_view(o: Option<String>) -> Option<Seq<char>> {
    match o {
        Some(s) => Some(s@),
        None => None,
    }
}

/// Mathematical image of an optional byte vector.
pub open spec fn opt_bytes_view(o: Option<Vec<u8>>) -> Option<Seq<u8>> {
    match o {
        Some(b) => Some(b@),
        None => None,
    }
}

/// Mathematical image of a stored account collection.
pub open spec fn users_view(v: Seq<User>) -> Seq<UserView> {
    v.map(|i: int, u: User| u@)
}

/// No two accounts share an identifier, a username or an email address.
pub open spec fn users_wf(s: Seq<UserView>) -> bool {
    forall|i: int, j: int|
        0 <= i < j < s.len() ==> s[i].id != s[j].id && s[i].username != s[j].username
            && s[i].email != s[j].email
}

/// Some account carries `id`.
pub open spec fn contains_user_id(s: Seq<UserView>, id: u128) -> bool {
    exists|i: int| 0 <= i < s.len() && s[i].id == id
}

/// Some account carries `username`.
pub open spec fn contains_username(s: Seq<UserView>, username: Seq<char>) -> bool {
    exists|i: int| 0 <= i < s.len() && s[i].username == username
}

/// Some account carries `email`.
pub open spec fn contains_email(s: Seq<UserView>, email: Seq<char>) -> bool {
    exists|i: int| 0 <= i < s.len() && s[i].email == email
}

/// Position of the account carrying `id`.
pub open spec fn user_id_index(s: Seq<UserView>, id: u128) -> int {
    choose|i: int| 0 <= i < s.len() && s[i].id == id
}

/// Position of the account carrying `username`.
pub open spec fn username_index(s: Seq<UserView>, username: Seq<char>) -> int {
    choose|i: int| 0 <= i < s.len() && s[i].username == username
}

/// The account an identifier resolves to, if any.
pub open spec fn spec_user_by_id(s: Seq<UserView>, id: u128) -> Option<UserView> {
    if contains_user_id(s, id) {
        Some(s[user_id_index(s, id)])
    } else {
        None
    }
}

/// The account a username resolves to, if any.
pub open spec fn spec_user_by_username(s: Seq<UserView>, username: Seq<char>) -> Option<UserView> {
    if contains_username(s, username) {
        Some(s[username_index(s, username)])
    } else {
        None
    }
}

/// Some account other than the one at `i` carries `username`.
pub open spec fn username_taken_by_other(s: Seq<UserView>, username: Seq<char>, i: int) -> bool {
    exists|j: int| 0 <= j < s.len() && j != i && s[j].username == username
}

/// Some account other than the one at `i` carries `email`.
pub open spec fn email_taken_by_other(s: Seq<UserView>, email: Seq<char>, i: int) -> bool {
    exists|j: int| 0 <= j < s.len() && j != i && s[j].email == email
}

/// The stored fields of a freshly registered account.
pub open spec fn fresh_user(
    id: u128,
    display_name: Seq<char>,
    username: Seq<char>,
    password_hash: Seq<u8>,
    email: Seq<char>,
    now: i64,
) -> UserView {
    UserView {
        id,
        display_name,
        username,
        password_hash,
        email,
        email_verified: false,
        active: true,
        created_at: now,
        updated_at: now,
    }
}

/// The fields of the account `v` after a self-service update: only the
/// supplied fields are re-issued.
pub open spec fn user_updated(
    v: UserView,
    display_name: Option<Seq<char>>,
    email: Option<Seq<char>>,
    password_hash: Option<Seq<u8>>,
    username: Option<Seq<char>>,
) -> UserView {
    UserView {
        id: v.id,
        display_name: display_name.unwrap_or(v.display_name),
        username: username.unwrap_or(v.username),
        password_hash: password_hash.unwrap_or(v.password_hash),
        email: email.unwrap_or(v.email),
        email_verified: v.email_verified,
        active: v.active,
        created_at: v.created_at,
        updated_at: v.updated_at,
    }
}

/// Whether the storage layer would refuse a self-service update of the
/// account `id` with the given fields: the account is missing, no field
/// at all is supplied, or a supplied username or email is already
/// carried by another account. `password_supplied` stands for whether a
/// credential accompanies the request.
pub open spec fn spec_update_refused(
    s: Seq<UserView>,
    id: u128,
    display_name: Option<Seq<char>>,
    email: Option<Seq<char>>,
    password_supplied: bool,
    username: Option<Seq<char>>,
) -> bool {
    ||| !contains_user_id(s, id)
    ||| (display_name is None && email is None && !password_supplied && username is None)
    ||| (username matches Some(u) && username_taken_by_other(s, u, user_id_index(s, id)))
    ||| (email matches Some(m) && email_taken_by_other(s, m, user_id_index(s, id)))
}

/// Under `users_wf`, a position holding `id` is the unique one.
pub proof fn lemma_user_id_index_is(s: Seq<UserView>, id: u128, i: int)
    requires
        users_wf(s),
        0 <= i < s.len(),
        s[i].id == id,
    ensures
        contains_user_id(s, id),
        user_id_index(s, id) == i,
{
    assert(contains_user_id(s, id));
    let j = user_id_index(s, id);
    if i < j {
        assert(s[i].id != s[j].id);
    } else if j < i {
        assert(s[j].id != s[i].id);
    }
}

/// Under `users_wf`, a position holding `username` is the unique one.
pub proof fn lemma_username_index_is(s: Seq<UserView>, username: Seq<char>, i: int)
    requires
        users_wf(s),
        0 <= i < s.len(),
        s[i].username == username,
    ensures
        contains_username(s, username),
        username_index(s, username) == i,
{
    assert(contains_username(s, username));
    let j = username_index(s, username);
    if i < j {
        assert(s[i].username != s[j].username);
    } else if j < i {
        assert(s[j].username != s[i].username);
    }
}

/// The set of registered accounts, with identifier, username and email
/// uniqueness established empty and preserved by every operation.
pub struct UserDirectory {
    users: Vec<User>,
}

impl View for UserDirectory {
    type V = Seq<UserView>;

    closed spec fn view(&self) -> Seq<UserView> {
        users_view(self.users@)
    }
}

impl UserDirectory {
    /// Identifier, username and email uniqueness.
    pub open spec fn wf(&self) -> bool {
        users_wf(self@)
    }

    /// An empty directory.
    pub fn new() -> (r: Self)
        ensures
            r.wf(),
            r@ == Seq::<UserView>::empty(),
    {
        let r = UserDirectory { users: Vec::new() };
        proof {
            assert(r@ =~= Seq::<UserView>::empty());
        }
        r
    }

    /// Position of the account carrying `id`, if any.
    fn find_id(&self, id: u128) -> (r: Option<usize>)
        requires
            self.wf(),
        ensures
            match r {
                Some(i) => {
                    &&& i < self@.len()
                    &&& self@[i as int].id == id
                    &&& contains_user_id(self@, id)
                    &&& user_id_index(self@, id) == i
                },
                None => !contains_user_id(self@, id),
            },
    {
        let mut i: usize = 0;
        while i < self.users.len()
            invariant
                self.wf(),
                0 <= i <= self@.len(),
                self@.len() == self.users@.len(),
                forall|j: int| 0 <= j < i ==> self@[j].id != id,
            decreases self@.len() - i,
        {
            if self.users[i].id == id {
                proof {
                    lemma_user_id_index_is(self@, id, i as int);
                }
                return Some(i);
            }
            i += 1;
        }
        None
    }

    /// Position of the account carrying `username`, if any.
    fn find_username(&self, username: &String) -> (r: Option<usize>)
        requires
            self.wf(),
        ensures
            match r {
                Some(i) => {
                    &&& i < self@.len()
                    &&& self@[i as int].username == username@
                    &&& contains_username(self@, username@)
                    &&& username_index(self@, username@) == i
                },
                None => !contains_username(self@, username@),
            },
    {
        let mut i: usize = 0;
        while i < self.users.len()
            invariant
                self.wf(),
                0 <= i <= self@.len(),
                self@.len() == self.users@.len(),
                forall|j: int| 0 <= j < i ==> self@[j].username != username@,
            decreases self@.len() - i,
        {
            if self.users[i].username == *username {
                proof {
                    lemma_username_index_is(self@, username@, i as int);
                }
                return Some(i);
            }
            i += 1;
        }
        None
    }

    /// Position of the account carrying `email`, if any.
    fn find_email(&self, email: &String) -> (r: Option<usize>)
        requires
            self.wf(),
        ensures
            match r {
                Some(i) => {
                    &&& i < self@.len()
                    &&& self@[i as int].email == email@
                    &&& contains_email(self@, email@)
                },
                None => !contains_email(self@, email@),
            },
    {
        let mut i: usize = 0;
        while i < self.users.len()
            invariant
                self.wf(),
                0 <= i <= self@.len(),
                self@.len() == self.users@.len(),
                forall|j: int| 0 <= j < i ==> self@[j].email != email@,
            decreases self@.len() - i,
        {
            if self.users[i].email == *email {
                proof {
                    assert(self@[i as int].email == email@);
                    assert(contains_email(self@, email@));
                }
                return Some(i);
            }
            i += 1;
        }
        None
    }

    /// Register an account under a caller-supplied identifier. Succeeds
    /// exactly when the identifier, the username and the email address
    /// are all fresh; any clash is a uniqueness violation, reported as
    /// `Conflict` with the directory unchanged.
    pub fn create_user_with_id(&mut self, id: u128, data: NewUser, now: i64) -> (r: Result<
        User,
        StoreError,
    >)
        requires
            old(self).wf(),
        ensures
            final(self).wf(),
            match r {
                Ok(user) => {
                    &&& !contains_user_id(old(self)@, id)
                    &&& !contains_username(old(self)@, data.username@)
                    &&& !contains_email(old(self)@, data.email@)
                    &&& user@ == fresh_user(
                        id,
                        data.display_name@,
                        data.username@,
                        data.password_hash@,
                        data.email@,
                        now,
                    )
                    &&& final(self)@ == old(self)@.push(user@)
                },
                Err(e) => {
                    &&& e == StoreError::Conflict
                    &&& (contains_user_id(old(self)@, id) || contains_username(
                        old(self)@,
                        data.username@,
                    ) || contains_email(old(self)@, data.email@))
                    &&& final(self)@ == old(self)@
                },
            },
    {
        if self.find_id(id).is_some() || self.find_username(&data.username).is_some()
            || self.find_email(&data.email).is_some() {
            return Err(StoreError::Conflict);
        }
        let user = User {
            id,
            display_name: data.display_name,
            username: data.username,
            password_hash: data.password_hash,
            email: data.email,
            email_verified: false,
            active: true,
            created_at: now,
            updated_at: now,
        };
        let stored = user.clone();
        let ghost pre = self@;
        self.users.push(stored);
        proof {
            assert(self@ =~= pre.push(user@));
            assert forall|i: int, j: int| 0 <= i < j < self@.len() implies self@[i].id
                != self@[j].id && self@[i].username != self@[j].username && self@[i].email
                != self@[j].email by {
                if j == pre.len() {
                    assert(!(0 <= i < pre.len() && pre[i].id == id));
                    assert(!(0 <= i < pre.len() && pre[i].username == user@.username));
                    assert(!(0 <= i < pre.len() && pre[i].email == user@.email));
                }
            }
        }
        Ok(user)
    }

    /// Register an account under a freshly drawn random identifier. A
    /// taken username or email always fails with `Conflict`.
    pub fn create_user(&mut self, data: NewUser, now: i64) -> (r: Result<User, StoreError>)
        requires
            old(self).wf(),
        ensures
            final(self).wf(),
            contains_username(old(self)@, data.username@) || contains_email(
                old(self)@,
                data.email@,
            ) ==> (r matches Err(e) && e == StoreError::Conflict),
            match r {
                Ok(user) => {
                    &&& !contains_username(old(self)@, data.username@)
                    &&& !contains_email(old(self)@, data.email@)
                    &&& !contains_user_id(old(self)@, user.id)
                    &&& user@ == fresh_user(
                        user.id,
                        data.display_name@,
                        data.username@,
                        data.password_hash@,
                        data.email@,
                        now,
                    )
                    &&& final(self)@ == old(self)@.push(user@)
                },
                Err(e) => {
                    &&& e == StoreError::Conflict
                    &&& final(self)@ == old(self)@
                },
            },
    {
        let id = crate::rng::random_id();
        self.create_user_with_id(id, data, now)
    }

    /// Resolve an identifier.
    pub fn get_by_id(&self, id: u128) -> (r: Result<User, StoreError>)
        requires
            self.wf(),
        ensures
            match r {
                Ok(user) => spec_user_by_id(self@, id) == Some(user@),
                Err(e) => e == StoreError::NotFound && spec_user_by_id(self@, id) is None,
            },
    {
        match self.find_id(id) {
            Some(i) => Ok(self.users[i].clone()),
            None => Err(StoreError::NotFound),
        }
    }

    /// Resolve a username, the login path.
    pub fn get_by_username(&self, username: &String) -> (r: Result<User, StoreError>)
        requires
            self.wf(),
        ensures
            match r {
                Ok(user) => spec_user_by_username(self@, username@) == Some(user@),
                Err(e) => e == StoreError::NotFound && spec_user_by_username(self@, username@)
                    is None,
            },
    {
        match self.find_username(username) {
            Some(i) => Ok(self.users[i].clone()),
            None => Err(StoreError::NotFound),
        }
    }

    /// Whether some account carries `username`.
    pub fn username_exists(&self, username: &String) -> (r: bool)
        requires
            self.wf(),
        ensures
            r == contains_username(self@, username@),
    {
        self.find_username(username).is_some()
    }

    /// Whether no account carries `username`.
    pub fn username_available(&self, username: &String) -> (r: bool)
        requires
            self.wf(),
        ensures
            r == !contains_username(self@, username@),
    {
        self.find_username(username).is_none()
    }

    /// Whether no account carries `email`.
    pub fn email_available(&self, email: &String) -> (r: bool)
        requires
            self.wf(),
        ensures
            r == !contains_email(self@, email@),
    {
        self.find_email(email).is_none()
    }

    /// Probe whether a self-service update of the account `id` with the
    /// given fields would be refused by the storage layer: the account
    /// is missing, no field is supplied, or a supplied username or email
    /// is carried by another account.
    pub fn update_refused(
        &self,
        id: u128,
        display_name: &Option<String>,
        email: &Option<String>,
        password_supplied: bool,
        username: &Option<String>,
    ) -> (r: bool)
        requires
            self.wf(),
        ensures
            r == spec_update_refused(
                self@,
                id,
                opt_str_view(*display_name),
                opt_str_view(*email),
                password_supplied,
                opt_str_view(*username),
            ),
    {
        let i = match self.find_id(id) {
            Some(i) => i,
            None => {
                return true;
            },
        };
        if display_name.is_none() && email.is_none() && !password_supplied && username.is_none() {
            return true;
        }
        let mut j: usize = 0;
        while j < self.users.len()
            invariant
                self.wf(),
                0 <= j <= self@.len(),
                self@.len() == self.users@.len(),
                i < self@.len(),
                user_id_index(self@, id) == i as int,
                contains_user_id(self@, id),
                self@[i as int].id == id,
                forall|k: int|
                    0 <= k < j && k != i ==> (username matches Some(u)
                        ==> #[trigger] self@[k].username != u@),
                forall|k: int|
                    0 <= k < j && k != i ==> (email matches Some(m) ==> #[trigger] self@[k].email
                        != m@),
            decreases self@.len() - j,
        {
            if j != i {
                let username_clash = match username {
                    Some(u) => self.users[j].username == *u,
                    None => false,
                };
                let email_clash = match email {
                    Some(m) => self.users[j].email == *m,
                    None => false,
                };
                if username_clash || email_clash {
                    proof {
                        if username_clash {
                            assert(self@[j as int].username == username.unwrap()@);
                            assert(username_taken_by_other(
                                self@,
                                username.unwrap()@,
                                i as int,
                            ));
                        } else {
                            assert(self@[j as int].email == email.unwrap()@);
                            assert(email_taken_by_other(self@, email.unwrap()@, i as int));
                        }
                    }
                    return true;
                }
            }
            j += 1;
        }
        false
    }

    /// Self-service update of the account `id`: re-issue only the
    /// supplied fields. A supplied username or email already carried by
    /// another account fails with `Conflict`; an unknown identifier —
    /// and an update supplying no fields at all, which the storage layer
    /// refuses as an empty changeset — fails with `NotFound`.
    pub fn update_user(
        &mut self,
        id: u128,
        display_name: Option<String>,
        email: Option<String>,
        password_hash: Option<Vec<u8>>,
        username: Option<String>,
    ) -> (r: Result<User, StoreError>)
        requires
            old(self).wf(),
        ensures
            final(self).wf(),
            match spec_user_by_id(old(self)@, id) {
                None => {
                    &&& r matches Err(e) && e == StoreError::NotFound
                    &&& final(self)@ == old(self)@
                },
                Some(_) => {
                    let i = user_id_index(old(self)@, id);
                    if display_name is None && email is None && password_hash is None && username
                        is None {
                        &&& r matches Err(e) && e == StoreError::NotFound
                        &&& final(self)@ == old(self)@
                    } else if (username matches Some(u) && username_taken_by_other(
                        old(self)@,
                        u@,
                        i,
                    )) || (email matches Some(m) && email_taken_by_other(old(self)@, m@, i)) {
                        &&& r matches Err(e) && e == StoreError::Conflict
                        &&& final(self)@ == old(self)@
                    } else {
                        &&& r matches Ok(user) && user@ == user_updated(
                            old(self)@[i],
                            opt_str_view(display_name),
                            opt_str_view(email),
                            opt_bytes_view(password_hash),
                            opt_str_view(username),
                        )
                        &&& final(self)@ == old(self)@.update(
                            i,
                            user_updated(
                                old(self)@[i],
                                opt_str_view(display_name),
                                opt_str_view(email),
                                opt_bytes_view(password_hash),
                                opt_str_view(username),
                            ),
                        )
                    }
                },
            },
    {
        let i = match self.find_id(id) {
            Some(i) => i,
            None => {
                return Err(StoreError::NotFound);
            },
        };
        if display_name.is_none() && email.is_none() && password_hash.is_none()
            && username.is_none() {
            return Err(StoreError::NotFound);
        }
        // A supplied username or email must not collide with any other account.
        let mut j: usize = 0;
        while j < self.users.len()
            invariant
                self.wf(),
                *self == *old(self),
                0 <= j <= self@.len(),
                self@.len() == self.users@.len(),
                i < self@.len(),
                user_id_index(old(self)@, id) == i as int,
                contains_user_id(old(self)@, id),
                self@[i as int].id == id,
                forall|k: int|
                    0 <= k < j && k != i ==> (username matches Some(u) ==> #[trigger] self@[k].username
                        != u@),
                forall|k: int|
                    0 <= k < j && k != i ==> (email matches Some(m) ==> #[trigger] self@[k].email
                        != m@),
            decreases self@.len() - j,
        {
            if j != i {
                let username_clash = match &username {
                    Some(u) => self.users[j].username == *u,
                    None => false,
                };
                let email_clash = match &email {
                    Some(m) => self.users[j].email == *m,
                    None => false,
                };
                if username_clash || email_clash {
                    proof {
                        if username_clash {
                            let u = username.unwrap();
                            assert(self@[j as int].username == u@);
                            assert(username_taken_by_other(self@, u@, i as int));
                        } else {
                            let m = email.unwrap();
                            assert(self@[j as int].email == m@);
                            assert(email_taken_by_other(self@, m@, i as int));
                        }
                    }
                    return Err(StoreError::Conflict);
                }
            }
            j += 1;
        }
        let current = &self.users[i];
        let updated = User {
            id: current.id,
            display_name: match display_name {
                Some(n) => n,
                None => current.display_name.clone(),
            },
            username: match username {
                Some(u) => u,
                None => current.username.clone(),
            },
            password_hash: match password_hash {
                Some(p) => p,
                None => clone_bytes(&current.password_hash),
            },
            email: match email {
                Some(m) => m,
                None => current.email.clone(),
            },
            email_verified: current.email_verified,
            active: current.active,
            created_at: current.created_at,
            updated_at: current.updated_at,
        };
        let returned = updated.clone();
        let ghost pre = self@;
        self.users.set(i, updated);
        proof {
            assert(self@ =~= pre.update(i as int, returned@));
            assert forall|a: int, b: int| 0 <= a < b < self@.len() implies self@[a].id
                != self@[b].id && self@[a].username != self@[b].username && self@[a].email
                != self@[b].email by {
                if a != i && b != i {
                    assert(self@[a] == pre[a] && self@[b] == pre[b]);
                }
            }
        }
        Ok(returned)
    }

    /// Remove the account `id`; returns the removed account, or
    /// `NotFound` when no account carries the identifier.
    pub fn delete_user(&mut self, id: u128) -> (r: Result<User, StoreError>)
        requires
            old(self).wf(),
        ensures
            final(self).wf(),
            match spec_user_by_id(old(self)@, id) {
                None => {
                    &&& r matches Err(e) && e == StoreError::NotFound
                    &&& final(self)@ == old(self)@
                },
                Some(v) => {
                    &&& r matches Ok(user) && user@ == v
                    &&& final(self)@ == old(self)@.remove(user_id_index(old(self)@, id))
                },
            },
    {
        let i = match self.find_id(id) {
            Some(i) => i,
            None => {
                return Err(StoreError::NotFound);
            },
        };
        let ghost pre = self@;
        let removed = self.users.remove(i);
        proof {
            assert(self@ =~= pre.remove(i as int));
        }
        Ok(removed)
    }
}

} // verus!
