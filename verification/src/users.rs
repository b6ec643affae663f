//! User accounts, as the engine reads them from the storage collaborator.
//!
//! The directory models the users table: unique ids handed out in
//! sequence, and unique usernames and email addresses (the table's
//! uniqueness constraints).  Password material enters only as an Argon2
//! hash.

use vstd::prelude::*;

use crate::passwords::{hash_password, password_matches};

verus! {

/// Storable role of an account; the role travels as a string.
pub enum UserRole {
    Admin,
    Player,
}

impl UserRole {
    /// The string stored for this role.
    pub fn as_str(&self) -> (r: &'static str)
        ensures
            *self is Admin ==> r@ == "admin"@,
            *self is Player ==> r@ == "player"@,
    {
        match self {
            UserRole::Admin => "admin",
            UserRole::Player => "player",
        }
    }
}

/// Mathematical image of one user row.
pub struct UserView {
    pub id: int,
    pub username: Seq<char>,
    pub email: Seq<char>,
    pub first_name: Option<Seq<char>>,
    pub last_name: Option<Seq<char>>,
    pub role: Seq<char>,
    pub password_hash: Seq<char>,
    pub created: int,
    pub email_verified: bool,
}

/// One user account.
pub struct User {
    id: i32,
    username: String,
    email: String,
    first_name: Option<String>,
    last_name: Option<String>,
    role: String,
    password_hash: String,
    created_timestamp: u64,
    email_verified: i8,
}

impl View for User {
    type V = UserView;

    closed spec fn view(&self) -> UserView {
        UserView {
            id: self.id as int,
            username: self.username@,
            email: self.email@,
            first_name: match self.first_name {
                Some(n) => Some(n@),
                None => None,
            },
            last_name: match self.last_name {
                Some(n) => Some(n@),
                None => None,
            },
            role: self.role@,
            password_hash: self.password_hash@,
            created: self.created_timestamp as int,
            email_verified: self.email_verified != 0,
        }
    }
}

impl User {
    /// Assemble a user row; the stored verified flag is an integer, as
    /// the storage collaborator keeps it.
    pub fn new(
        id: i32,
        username: String,
        email: String,
        first_name: Option<String>,
        last_name: Option<String>,
        role: String,
        password_hash: String,
        created_timestamp: u64,
        email_verified: bool,
    ) -> (r: User)
        ensures
            r@.id == id as int,
            r@.username == username@,
            r@.email == email@,
            first_name matches Some(n) ==> r@.first_name == Some(n@),
            first_name is None ==> r@.first_name is None,
            last_name matches Some(n) ==> r@.last_name == Some(n@),
            last_name is None ==> r@.last_name is None,
            r@.role == role@,
            r@.password_hash == password_hash@,
            r@.created == created_timestamp as int,
            r@.email_verified == email_verified,
    {
        User {
            id,
            username,
            email,
            first_name,
            last_name,
            role,
            password_hash,
            created_timestamp,
            email_verified: if email_verified {
                1
            } else {
                0
            },
        }
    }

    pub fn get_email_verified(&self) -> (r: bool)
        ensures
            r == self@.email_verified,
    {
        self.email_verified != 0
    }

    pub fn get_password_hash(&self) -> (r: &String)
        ensures
            r@ == self@.password_hash,
    {
        &self.password_hash
    }

    pub fn get_id(&self) -> (r: i32)
        ensures
            r as int == self@.id,
    {
        self.id
    }

    pub fn get_role(&self) -> (r: &String)
        ensures
            r@ == self@.role,
    {
        &self.role
    }

    pub fn get_username(&self) -> (r: &String)
        ensures
            r@ == self@.username,
    {
        &self.username
    }

    /// The first name, or the empty string when none is on file.
    pub fn get_first_name(&self) -> (r: String)
        ensures
            self@.first_name matches Some(n) ==> r@ == n,
            self@.first_name is None ==> r@ =~= Seq::<char>::empty(),
    {
        match &self.first_name {
            Some(first_name) => first_name.clone(),
            None => String::new(),
        }
    }

    /// The last name, or the empty string when none is on file.
    pub fn get_last_name(&self) -> (r: String)
        ensures
            self@.last_name matches Some(n) ==> r@ == n,
            self@.last_name is None ==> r@ =~= Seq::<char>::empty(),
    {
        match &self.last_name {
            Some(last_name) => last_name.clone(),
            None => String::new(),
        }
    }
}

/// The users table: unique ids, usernames and email addresses.
pub struct UserDirectory {
    users: Vec<User>,
    next_id: i32,
}

impl UserDirectory {
    /// Ids are unique and below `next_id`; usernames and email addresses
    /// are unique, as the table's constraints demand.
    pub closed spec fn wf(self) -> bool {
        &&& forall|i: int|
            0 <= i < self.users@.len() ==> (#[trigger] self.users@[i]@).id < self.next_id as int
        &&& forall|i: int, j: int|
            #![trigger self.users@[i]@, self.users@[j]@]
            0 <= i < j < self.users@.len() ==> (self.users@[i]@.id != self.users@[j]@.id
                && self.users@[i]@.username != self.users@[j]@.username && self.users@[i]@.email
                != self.users@[j]@.email)
    }

    /// Some row has this id.
    pub closed spec fn spec_contains_id(self, id: int) -> bool {
        exists|i: int| 0 <= i < self.users@.len() && (#[trigger] self.users@[i]@).id == id
    }

    /// The row with this id, if any.
    pub closed spec fn spec_user_by_id(self, id: int) -> Option<UserView> {
        if self.spec_contains_id(id) {
            Some(
                self.users@[choose|i: int|
                    0 <= i < self.users@.len() && (#[trigger] self.users@[i]@).id == id]@,
            )
        } else {
            None
        }
    }

    /// Some row has this username.
    pub closed spec fn spec_has_username(self, username: Seq<char>) -> bool {
        exists|i: int|
            0 <= i < self.users@.len() && (#[trigger] self.users@[i]@).username == username
    }

    /// The row with this username, if any.
    pub closed spec fn spec_user_by_username(self, username: Seq<char>) -> Option<UserView> {
        if self.spec_has_username(username) {
            Some(
                self.users@[choose|i: int|
                    0 <= i < self.users@.len() && (#[trigger] self.users@[i]@).username
                        == username]@,
            )
        } else {
            None
        }
    }

    /// Some row has this email address.
    pub closed spec fn spec_has_email(self, email: Seq<char>) -> bool {
        exists|i: int| 0 <= i < self.users@.len() && (#[trigger] self.users@[i]@).email == email
    }

    /// The row with this email address, if any.
    pub closed spec fn spec_user_by_email(self, email: Seq<char>) -> Option<UserView> {
        if self.spec_has_email(email) {
            Some(
                self.users@[choose|i: int|
                    0 <= i < self.users@.len() && (#[trigger] self.users@[i]@).email == email]@,
            )
        } else {
            None
        }
    }

    /// The id the next added row will get.
    pub closed spec fn spec_next_id(self) -> int {
        self.next_id as int
    }

    /// Whether a fresh id remains to hand out.
    pub open spec fn spec_has_free_id(self) -> bool {
        self.spec_next_id() < i32::MAX as int
    }

    /// An empty directory.
    pub fn new() -> (r: UserDirectory)
        ensures
            r.wf(),
            r.spec_next_id() == 1,
            forall|id: int| r.spec_user_by_id(id) is None,
            forall|u: Seq<char>| r.spec_user_by_username(u) is None,
            forall|e: Seq<char>| !r.spec_has_email(e),
    {
        UserDirectory { users: Vec::new(), next_id: 1 }
    }

    /// True when a row with this username exists.
    pub fn username_taken(&self, username: &String) -> (r: bool)
        ensures
            r == self.spec_has_username(username@),
    {
        let n = self.users.len();
        let mut i: usize = 0;
        while i < n
            invariant
                n == self.users@.len(),
                i <= n,
                forall|k: int|
                    0 <= k < i ==> (#[trigger] self.users@[k]@).username != username@,
            decreases n - i,
        {
            if self.users[i].username == *username {
                proof {
                    assert((self.users@[i as int]@).username == username@);
                }
                return true;
            }
            i += 1;
        }
        false
    }

    /// True when a row with this email address exists.
    pub fn email_taken(&self, email: &String) -> (r: bool)
        ensures
            r == self.spec_has_email(email@),
    {
        let n = self.users.len();
        let mut i: usize = 0;
        while i < n
            invariant
                n == self.users@.len(),
                i <= n,
                forall|k: int| 0 <= k < i ==> (#[trigger] self.users@[k]@).email != email@,
            decreases n - i,
        {
            if self.users[i].email == *email {
                proof {
                    assert((self.users@[i as int]@).email == email@);
                }
                return true;
            }
            i += 1;
        }
        false
    }

    /// With `wf`, the row index of an id is unique.
    proof fn lemma_unique_id_index(self, id: int, i: int)
        requires
            self.wf(),
            0 <= i < self.users@.len(),
            self.users@[i]@.id == id,
        ensures
            self.spec_contains_id(id),
            self.spec_user_by_id(id) == Some(self.users@[i]@),
    {
        assert(self.spec_contains_id(id));
        let j = choose|j: int| 0 <= j < self.users@.len() && (#[trigger] self.users@[j]@).id == id;
        if i < j {
            assert(self.users@[i]@.id != self.users@[j]@.id);
        } else if j < i {
            assert(self.users@[j]@.id != self.users@[i]@.id);
        }
    }

    /// With `wf`, the row index of a username is unique.
    proof fn lemma_unique_username_index(self, username: Seq<char>, i: int)
        requires
            self.wf(),
            0 <= i < self.users@.len(),
            self.users@[i]@.username == username,
        ensures
            self.spec_has_username(username),
            self.spec_user_by_username(username) == Some(self.users@[i]@),
    {
        assert(self.spec_has_username(username));
        let j = choose|j: int|
            0 <= j < self.users@.len() && (#[trigger] self.users@[j]@).username == username;
        if i < j {
            assert(self.users@[i]@.username != self.users@[j]@.username);
        } else if j < i {
            assert(self.users@[j]@.username != self.users@[i]@.username);
        }
    }

    /// The row with this id, if any.
    pub fn get_user_by_id(&self, id: i32) -> (r: Option<&User>)
        requires
            self.wf(),
        ensures
            r matches Some(u) ==> (self.spec_user_by_id(id as int) == Some(u@) && u@.id
                == id as int),
            r is None ==> self.spec_user_by_id(id as int) is None,
    {
        let n = self.users.len();
        let mut i: usize = 0;
        while i < n
            invariant
                n == self.users@.len(),
                i <= n,
                self.wf(),
                forall|k: int| 0 <= k < i ==> (#[trigger] self.users@[k]@).id != id as int,
            decreases n - i,
        {
            if self.users[i].id == id {
                proof {
                    self.lemma_unique_id_index(id as int, i as int);
                }
                return Some(&self.users[i]);
            }
            i += 1;
        }
        proof {
            if self.spec_contains_id(id as int) {
                let j = choose|j: int|
                    0 <= j < self.users@.len() && (#[trigger] self.users@[j]@).id == id as int;
                assert(0 <= j < self.users@.len());
            }
        }
        None
    }

    /// The row with this username, if any.
    pub fn get_user_by_username(&self, username: &String) -> (r: Option<&User>)
        requires
            self.wf(),
        ensures
            r matches Some(u) ==> (self.spec_user_by_username(username@) == Some(u@)
                && u@.username == username@),
            r is None ==> self.spec_user_by_username(username@) is None,
    {
        let n = self.users.len();
        let mut i: usize = 0;
        while i < n
            invariant
                n == self.users@.len(),
                i <= n,
                self.wf(),
                forall|k: int|
                    0 <= k < i ==> (#[trigger] self.users@[k]@).username != username@,
            decreases n - i,
        {
            if self.users[i].username == *username {
                proof {
                    self.lemma_unique_username_index(username@, i as int);
                }
                return Some(&self.users[i]);
            }
            i += 1;
        }
        proof {
            if self.spec_has_username(username@) {
                let j = choose|j: int|
                    0 <= j < self.users@.len() && (#[trigger] self.users@[j]@).username
                        == username@;
                assert(0 <= j < self.users@.len());
            }
        }
        None
    }

    /// With `wf`, the row index of an email address is unique.
    proof fn lemma_unique_email_index(self, email: Seq<char>, i: int)
        requires
            self.wf(),
            0 <= i < self.users@.len(),
            self.users@[i]@.email == email,
        ensures
            self.spec_has_email(email),
            self.spec_user_by_email(email) == Some(self.users@[i]@),
    {
        assert(self.spec_has_email(email));
        let j = choose|j: int|
            0 <= j < self.users@.len() && (#[trigger] self.users@[j]@).email == email;
        if i < j {
            assert(self.users@[i]@.email != self.users@[j]@.email);
        } else if j < i {
            assert(self.users@[j]@.email != self.users@[i]@.email);
        }
    }

    /// The row with this email address, if any.
    pub fn get_user_by_email(&self, email: &String) -> (r: Option<&User>)
        requires
            self.wf(),
        ensures
            r matches Some(u) ==> (self.spec_user_by_email(email@) == Some(u@) && u@.email
                == email@),
            r is None ==> self.spec_user_by_email(email@) is None,
    {
        let n = self.users.len();
        let mut i: usize = 0;
        while i < n
            invariant
                n == self.users@.len(),
                i <= n,
                self.wf(),
                forall|k: int| 0 <= k < i ==> (#[trigger] self.users@[k]@).email != email@,
            decreases n - i,
        {
            if self.users[i].email == *email {
                proof {
                    self.lemma_unique_email_index(email@, i as int);
                }
                return Some(&self.users[i]);
            }
            i += 1;
        }
        proof {
            if self.spec_has_email(email@) {
                let j = choose|j: int|
                    0 <= j < self.users@.len() && (#[trigger] self.users@[j]@).email == email@;
                assert(0 <= j < self.users@.len());
            }
        }
        None
    }

    /// Add a user with a fresh id and the default role.  The password is
    /// hashed here; the raw password is consumed and never stored.
    ///
    /// Fails exactly when no fresh id remains; the caller has already
    /// checked, as the registration flow does, that username and email
    /// address are free.
    pub fn add_user(&mut self, username: &String, email: &String, password: String) -> (r: Result<
        i32,
        crate::auth::AuthError,
    >)
        requires
            old(self).wf(),
            !old(self).spec_has_username(username@),
            !old(self).spec_has_email(email@),
            password@.len() <= 0x3FFFFFFF,
        ensures
            final(self).wf(),
            r is Err <==> !old(self).spec_has_free_id(),
            r matches Ok(id) ==> (final(self).spec_user_by_id(id as int) matches Some(u)
                && u.username == username@ && u.email == email@ && u.role == "player"@
                && password_matches(password@, u.password_hash)),
            r matches Ok(id) ==> (id as int == old(self).spec_next_id()
                && final(self).spec_next_id() == old(self).spec_next_id() + 1),
            r matches Ok(id) ==> final(self).spec_user_by_username(username@)
                == final(self).spec_user_by_id(id as int),
            r matches Err(e) ==> (e == crate::auth::AuthError::StorageError && *final(self) == *old(
                self,
            )),
            forall|id: int|
                (r matches Ok(fresh) ==> id != fresh as int) ==> final(self).spec_user_by_id(id)
                    == old(self).spec_user_by_id(id),
    {
        if self.next_id == i32::MAX {
            return Err(crate::auth::AuthError::StorageError);
        }
        let id = self.next_id;
        let password_hash = hash_password(password);
        let user = User {
            id,
            username: username.clone(),
            email: email.clone(),
            first_name: None,
            last_name: None,
            role: "player".to_owned(),
            password_hash,
            created_timestamp: 0,
            email_verified: 0,
        };
        let ghost old_users = self.users@;
        self.users.push(user);
        self.next_id = id + 1;
        proof {
            let new_len = self.users@.len();
            assert forall|a: int, b: int|
                #![trigger self.users@[a]@, self.users@[b]@]
                0 <= a < b < new_len implies (self.users@[a]@.id != self.users@[b]@.id
                && self.users@[a]@.username != self.users@[b]@.username && self.users@[a]@.email
                != self.users@[b]@.email) by {
                if b == new_len - 1 {
                    assert(self.users@[a]@ == old_users[a]@);
                    assert(old_users[a]@.id < id as int);
                }
            }
            assert forall|i: int|
                0 <= i < new_len implies (#[trigger] self.users@[i]@).id < self.next_id as int by {
                if i < new_len - 1 {
                    assert(self.users@[i]@ == old_users[i]@);
                }
            }
            self.lemma_unique_id_index(id as int, new_len - 1);
            self.lemma_unique_username_index(username@, new_len - 1);
            assert forall|uid: int| uid != id as int implies self.spec_user_by_id(uid)
                == old(self).spec_user_by_id(uid) by {
                self.lemma_push_preserves_id(*old(self), uid);
            }
        }
        Ok(id)
    }

    /// Pushing a row with a fresh id leaves every other id's lookup
    /// unchanged.
    proof fn lemma_push_preserves_id(self, other: UserDirectory, id: int)
        requires
            self.wf(),
            other.wf(),
            self.users@.len() == other.users@.len() + 1,
            forall|k: int|
                0 <= k < other.users@.len() ==> self.users@[k]@ == #[trigger] other.users@[k]@,
            self.users@[self.users@.len() - 1]@.id != id,
        ensures
            self.spec_user_by_id(id) == other.spec_user_by_id(id),
    {
        if self.spec_contains_id(id) {
            let i = choose|i: int|
                0 <= i < self.users@.len() && (#[trigger] self.users@[i]@).id == id;
            assert(i < self.users@.len() - 1);
            assert(other.users@[i]@.id == id);
            assert(other.spec_contains_id(id));
            self.lemma_unique_id_index(id, i);
            other.lemma_unique_id_index(id, i);
        } else {
            if other.spec_contains_id(id) {
                let i = choose|i: int|
                    0 <= i < other.users@.len() && (#[trigger] other.users@[i]@).id == id;
                assert(self.users@[i]@.id == id);
                assert(self.spec_contains_id(id));
                assert(false);
            }
        }
    }
}

} // verus!
