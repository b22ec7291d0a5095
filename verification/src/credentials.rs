use vstd::prelude::*;

use crate::errors::ForumError;
use crate::hashing::{credential_seq, derive_credential};
use crate::models::{NewUser, User};

verus! {

/// Holds the registered accounts, creates new ones, and checks login
/// credentials. Accounts are never changed or removed once created.
pub struct CredentialStore {
    pub users: Vec<User>,
}

impl CredentialStore {
    /// The stored records, oldest first.
    pub open spec fn records(&self) -> Seq<User> {
        self.users@
    }

    /// Identifiers are assigned in order starting at 1, so a record's
    /// identifier is its position plus one; usernames never repeat.
    pub open spec fn wf(&self) -> bool {
        &&& self.records().len() <= 0x7fff_ffff
        &&& forall|i: int|
            0 <= i < self.records().len() ==> (#[trigger] self.records()[i]).id == i + 1
        &&& forall|i: int, j: int|
            0 <= i < j < self.records().len() ==> self.records()[i].username@
                != self.records()[j].username@
    }

    /// Whether some account holds this exact username.
    pub open spec fn has_username(&self, name: Seq<char>) -> bool {
        exists|i: int|
            0 <= i < self.records().len() && (#[trigger] self.records()[i]).username@ == name
    }

    /// The account holding this username; meaningful when `has_username`.
    pub open spec fn user_named(&self, name: Seq<char>) -> User {
        self.records()[choose|i: int|
            0 <= i < self.records().len() && (#[trigger] self.records()[i]).username@ == name]
    }

    /// Whether an identifier references an account.
    pub open spec fn has_user_id(&self, id: int) -> bool {
        1 <= id <= self.records().len()
    }

    /// The account with this identifier; meaningful when `has_user_id`.
    pub open spec fn user_with_id(&self, id: int) -> User {
        self.records()[id - 1]
    }

    /// In a well-formed store, every record whose username is `name` is
    /// `user_named(name)`.
    pub proof fn lemma_user_named_is_unique(&self, i: int)
        requires
            self.wf(),
            0 <= i < self.records().len(),
        ensures
            self.user_named(self.records()[i].username@) == self.records()[i],
    {
        let name = self.records()[i].username@;
        let j = choose|j: int|
            0 <= j < self.records().len() && (#[trigger] self.records()[j]).username@ == name;
        if i != j {
            assert(self.records()[i].username@ != self.records()[j].username@);
        }
    }

    /// An empty store.
    pub fn new() -> (s: CredentialStore)
        ensures
            s.wf(),
            s.records().len() == 0,
    {
        CredentialStore { users: Vec::new() }
    }

    /// The index of the account holding `name`, if any.
    fn find_index(&self, name: &String) -> (r: Option<usize>)
        ensures
            r matches Some(i) ==> i < self.records().len() && self.records()[i as int].username@
                == name@,
            r is None ==> !self.has_username(name@),
    {
        let n = self.users.len();
        let mut i: usize = 0;
        while i < n
            invariant
                i <= n,
                n == self.records().len(),
                forall|j: int|
                    0 <= j < i ==> (#[trigger] self.records()[j]).username@ != name@,
            decreases n - i,
        {
            if self.users[i].username == *name {
                return Some(i);
            }
            i = i + 1;
        }
        None
    }

    /// Looks an account up by exact username.
    pub fn find_by_username(&self, name: &String) -> (r: Option<User>)
        requires
            self.wf(),
        ensures
            (r is Some) <==> self.has_username(name@),
            r matches Some(u) ==> u == self.user_named(name@) && u.username@ == name@,
    {
        match self.find_index(name) {
            Some(i) => {
                proof {
                    self.lemma_user_named_is_unique(i as int);
                }
                Some(self.users[i].duplicate())
            },
            None => None,
        }
    }

    /// Whether `id` references an account.
    pub fn user_exists(&self, id: i32) -> (r: bool)
        ensures
            r == self.has_user_id(id as int),
    {
        1 <= id && id as usize <= self.users.len()
    }

    /// The account `id` references.
    pub fn user_by_id(&self, id: i32) -> (u: User)
        requires
            self.wf(),
            self.has_user_id(id as int),
        ensures
            u == self.user_with_id(id as int),
    {
        self.users[(id - 1) as usize].duplicate()
    }

    /// Creates an account for `data`, deriving the stored credential
    /// from the raw password, and returns the stored record. Fails with
    /// `DuplicateUsername`, changing nothing, exactly when the username
    /// is already taken.
    pub fn register(&mut self, data: NewUser) -> (r: Result<User, ForumError>)
        requires
            old(self).wf(),
            old(self).records().len() < 0x7fff_ffff,
        ensures
            final(self).wf(),
            (r is Ok) <==> !old(self).has_username(data.username@),
            r matches Ok(u) ==> {
                &&& final(self).records() == old(self).records().push(u)
                &&& u.id as int == old(self).records().len() + 1
                &&& u.username == data.username
                &&& u.email == data.email
                &&& u.password@ == credential_seq(data.password@)
            },
            r is Err ==> *final(self) == *old(self) && r == Err::<User, ForumError>(
                ForumError::DuplicateUsername,
            ),
    {
        if let Some(_i) = self.find_index(&data.username) {
            return Err(ForumError::DuplicateUsername);
        }
        let credential = derive_credential(data.password.as_str());
        let user = User {
            id: (self.users.len() + 1) as i32,
            username: data.username,
            email: data.email,
            password: credential,
        };
        self.users.push(user.duplicate());
        Ok(user)
    }

    /// Checks a login. Fails with `NotFound` when no account holds the
    /// username, with `InvalidCredential` when the stored credential
    /// does not match the password, and otherwise returns the account.
    /// Read-only.
    pub fn verify(&self, username: &String, raw_password: &String) -> (r: Result<
        User,
        ForumError,
    >)
        requires
            self.wf(),
        ensures
            !self.has_username(username@) ==> r == Err::<User, ForumError>(ForumError::NotFound),
            self.has_username(username@) && self.user_named(username@).password@ != credential_seq(
                raw_password@,
            ) ==> r == Err::<User, ForumError>(ForumError::InvalidCredential),
            self.has_username(username@) && self.user_named(username@).password@ == credential_seq(
                raw_password@,
            ) ==> r == Ok::<User, ForumError>(self.user_named(username@)),
    {
        match self.find_index(username) {
            None => Err(ForumError::NotFound),
            Some(i) => {
                proof {
                    self.lemma_user_named_is_unique(i as int);
                }
                let expected = derive_credential(raw_password.as_str());
                if self.users[i].password == expected {
                    Ok(self.users[i].duplicate())
                } else {
                    Err(ForumError::InvalidCredential)
                }
            },
        }
    }
}

} // verus!
