//! The in-memory user store: a hash map from the email text to the stored
//! record — a salted password hash, never the password itself.
use vstd::prelude::*;
use vstd::hash_map::StringHashMap;
use vstd::string::*;

use crate::data_stores::UserStore;
use crate::email::Email;
use crate::errors::UserStoreError;
use crate::password::Password;
use crate::user::{StoredUser, StoredUserView, User};

verus! {

/// A `UserStore` backed by a hash map keyed by the email text.
pub struct HashmapUserStore {
    users: StringHashMap<StoredUser>,
}

impl Default for HashmapUserStore {
    /// An empty store.
    fn default() -> (r: HashmapUserStore)
        ensures
            r.users() == Map::<Seq<char>, StoredUserView>::empty(),
    {
        HashmapUserStore { users: StringHashMap::new() }
    }
}

impl UserStore for HashmapUserStore {
    closed spec fn users(&self) -> Map<Seq<char>, StoredUserView> {
        self.users@.map_values(|u: StoredUser| u@)
    }

    fn add_user(&mut self, user: User) -> (r: Result<(), UserStoreError>) {
        if self.users.contains_key(user.email.as_str()) {
            proof {
                assert(old(self).users().contains_key(user@.email));
            }
            return Err(UserStoreError::UserAlreadyExists);
        }
        let stored = StoredUser::of_user(&user);
        let ghost stored_view = stored@;
        let key = String::from_str(user.email.as_str());
        self.users.insert(key, stored);
        proof {
            assert(self.users() =~= old(self).users().insert(user@.email, stored_view));
        }
        Ok(())
    }

    fn get_user(&self, email: &Email) -> (r: Result<StoredUser, UserStoreError>) {
        match self.users.get(email.as_str()) {
            Some(user) => Ok(user.clone()),
            None => Err(UserStoreError::UserNotFound),
        }
    }

    fn validate_user(&self, email: &Email, password: &Password) -> (r: Result<
        (),
        UserStoreError,
    >) {
        match self.users.get(email.as_str()) {
            Some(user) => {
                if user.password_hash.matches(password) {
                    Ok(())
                } else {
                    Err(UserStoreError::InvalidCredentials)
                }
            },
            None => Err(UserStoreError::UserNotFound),
        }
    }
}

} // verus!
