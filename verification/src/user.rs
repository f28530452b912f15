//! The user record: a validated email, a validated password, and whether a
//! second authentication factor is required at login.
use vstd::prelude::*;

use crate::crypto::hmac_tag_of;
use crate::email::Email;
use crate::password::Password;
use crate::password_hash::PasswordHash;

verus! {

/// A registered user. Created on signup and never mutated afterwards.
#[derive(Debug, PartialEq)]
pub struct User {
    pub email: Email,
    pub password: Password,
    pub requires_2fa: bool,
}

/// The mathematical content of a user record.
pub ghost struct UserView {
    pub email: Seq<char>,
    pub password: Seq<char>,
    pub requires_2fa: bool,
}

impl View for User {
    type V = UserView;

    open spec fn view(&self) -> UserView {
        UserView { email: self.email@, password: self.password@, requires_2fa: self.requires_2fa }
    }
}

impl Clone for User {
    fn clone(&self) -> (r: User)
        ensures
            r@ == self@,
    {
        User {
            email: self.email.clone(),
            password: self.password.clone(),
            requires_2fa: self.requires_2fa,
        }
    }
}

impl User {
    /// Builds the record from already-validated credentials.
    pub fn new(email: Email, password: Password, requires_2fa: bool) -> (r: User)
        ensures
            r@ == (UserView { email: email@, password: password@, requires_2fa }),
    {
        User { email, password, requires_2fa }
    }
}

/// A user record as a store keeps it: the password is gone, only its
/// salted one-way hash remains.
#[derive(Debug)]
pub struct StoredUser {
    pub email: Email,
    pub password_hash: PasswordHash,
    pub requires_2fa: bool,
}

/// The mathematical content of a stored user record.
pub ghost struct StoredUserView {
    pub email: Seq<char>,
    pub salt: Seq<u8>,
    pub password_tag: Seq<u8>,
    pub requires_2fa: bool,
}

impl View for StoredUser {
    type V = StoredUserView;

    open spec fn view(&self) -> StoredUserView {
        StoredUserView {
            email: self.email@,
            salt: self.password_hash@.salt,
            password_tag: self.password_hash@.tag,
            requires_2fa: self.requires_2fa,
        }
    }
}

impl Clone for StoredUser {
    fn clone(&self) -> (r: StoredUser)
        ensures
            r@ == self@,
    {
        StoredUser {
            email: self.email.clone(),
            password_hash: self.password_hash.clone(),
            requires_2fa: self.requires_2fa,
        }
    }
}

impl StoredUser {
    /// Hashes the user's password under a fresh random salt and keeps the
    /// other fields.
    pub fn of_user(user: &User) -> (r: StoredUser)
        ensures
            r@.email == user@.email,
            r@.requires_2fa == user@.requires_2fa,
            r@.password_tag == hmac_tag_of(r@.salt, user@.password),
    {
        StoredUser {
            email: user.email.clone(),
            password_hash: PasswordHash::of(&user.password),
            requires_2fa: user.requires_2fa,
        }
    }
}

} // verus!
