//! User records and the partial update that activation applies to them.

use vstd::prelude::*;

verus! {

/// What a user may do.  Signup always assigns [`UserRole::Normal`].
#[derive(Clone, Copy, Debug, PartialEq, Eq, Structural)]
pub enum UserRole {
    Normal,
    /// Any role that this subsystem does not assign itself.
    Other,
}

/// A user as handed to the store at signup.  The store assigns the identifier.
/// `password_hash` holds the digest, never the plaintext.
#[derive(Clone, Debug, PartialEq, Eq)]
pub struct NewUser {
    pub username: String,
    pub email: String,
    pub password_hash: String,
    pub role: UserRole,
    pub confirmed: bool,
}

/// Mathematical model of a [`NewUser`].
pub struct NewUserView {
    pub username: Seq<char>,
    pub email: Seq<char>,
    pub password_hash: Seq<char>,
    pub role: UserRole,
    pub confirmed: bool,
}

impl View for NewUser {
    type V = NewUserView;

    open spec fn view(&self) -> NewUserView {
        NewUserView {
            username: self.username@,
            email: self.email@,
            password_hash: self.password_hash@,
            role: self.role,
            confirmed: self.confirmed,
        }
    }
}

/// A user as the store holds it.
#[derive(Clone, Debug, PartialEq, Eq)]
pub struct User {
    pub id: i64,
    pub username: String,
    pub email: String,
    pub password_hash: String,
    pub role: UserRole,
    pub confirmed: bool,
}

/// Mathematical model of a [`User`].
pub struct UserView {
    pub id: i64,
    pub username: Seq<char>,
    pub email: Seq<char>,
    pub password_hash: Seq<char>,
    pub role: UserRole,
    pub confirmed: bool,
}

impl View for User {
    type V = UserView;

    open spec fn view(&self) -> UserView {
        UserView {
            id: self.id,
            username: self.username@,
            email: self.email@,
            password_hash: self.password_hash@,
            role: self.role,
            confirmed: self.confirmed,
        }
    }
}

/// A partial update of a stored user: a field that is `None` is left as it is.
#[derive(Clone, Copy, Debug, PartialEq, Eq)]
pub struct UserPatch {
    pub confirmed: Option<bool>,
}

impl UserPatch {
    /// The stored user after the patch: only the fields that the patch names change.
    pub open spec fn applied(self, user: UserView) -> UserView {
        UserView {
            confirmed: match self.confirmed {
                Some(flag) => flag,
                None => user.confirmed,
            },
            ..user
        }
    }

    /// The patch that activation sends: it marks the user confirmed and touches nothing else.
    pub open spec fn confirmation() -> UserPatch {
        UserPatch { confirmed: Some(true) }
    }

    /// The patch that marks a user confirmed.
    pub fn confirm() -> (r: UserPatch)
        ensures
            r == UserPatch::confirmation(),
    {
        UserPatch { confirmed: Some(true) }
    }

    /// Applies the patch to a user record.
    pub fn apply(&self, user: User) -> (r: User)
        ensures
            r@ == self.applied(user@),
    {
        let confirmed = match self.confirmed {
            Some(flag) => flag,
            None => user.confirmed,
        };
        User {
            id: user.id,
            username: user.username,
            email: user.email,
            password_hash: user.password_hash,
            role: user.role,
            confirmed,
        }
    }
}

impl NewUser {
    /// An unconfirmed user with the given digest as its password.
    pub fn new(username: String, password_hash: String, email: String, role: UserRole) -> (r:
        NewUser)
        ensures
            r@ == (NewUserView {
                username: username@,
                email: email@,
                password_hash: password_hash@,
                role,
                confirmed: false,
            }),
    {
        NewUser { username, email, password_hash, role, confirmed: false }
    }
}

} // verus!
