//! The in-memory two-factor code store: a hash map from the email text to
//! the pending challenge.
use vstd::prelude::*;
use vstd::hash_map::StringHashMap;
use vstd::string::*;

use crate::data_stores::{ChallengeView, LoginAttemptId, TwoFACode, TwoFACodeStore};
use crate::email::Email;
use crate::errors::TwoFACodeStoreError;

verus! {

/// A `TwoFACodeStore` backed by a hash map keyed by the email text.
pub struct HashmapTwoFACodeStore {
    codes: StringHashMap<(LoginAttemptId, TwoFACode)>,
}

impl Default for HashmapTwoFACodeStore {
    /// An empty store.
    fn default() -> (r: HashmapTwoFACodeStore)
        ensures
            r.codes() == Map::<Seq<char>, ChallengeView>::empty(),
    {
        HashmapTwoFACodeStore { codes: StringHashMap::new() }
    }
}

impl TwoFACodeStore for HashmapTwoFACodeStore {
    closed spec fn codes(&self) -> Map<Seq<char>, ChallengeView> {
        self.codes@.map_values(
            |c: (LoginAttemptId, TwoFACode)| ChallengeView { id: c.0@, code: c.1@ },
        )
    }

    fn add_code(&mut self, email: Email, id: LoginAttemptId, code: TwoFACode) -> (r: Result<
        (),
        TwoFACodeStoreError,
    >) {
        let key = String::from_str(email.as_str());
        let ghost id_view = id@;
        let ghost code_view = code@;
        self.codes.insert(key, (id, code));
        proof {
            assert(self.codes() =~= old(self).codes().insert(
                email@,
                ChallengeView { id: id_view, code: code_view },
            ));
        }
        Ok(())
    }

    fn get_code(&self, email: &Email) -> (r: Result<
        (LoginAttemptId, TwoFACode),
        TwoFACodeStoreError,
    >) {
        match self.codes.get(email.as_str()) {
            Some(c) => Ok((c.0.clone(), c.1.clone())),
            None => Err(TwoFACodeStoreError::CodeNotFound),
        }
    }

    fn remove_code(&mut self, email: &Email) -> (r: Result<(), TwoFACodeStoreError>) {
        self.codes.remove(email.as_str());
        proof {
            assert(self.codes() =~= old(self).codes().remove(email@));
        }
        Ok(())
    }
}

} // verus!
