//! The in-memory banned token store: a hash set of revoked token strings.
use vstd::prelude::*;
use vstd::hash_set::StringHashSet;

use crate::data_stores::BannedTokenStore;
use crate::errors::BannedTokenStoreError;

verus! {

/// A `BannedTokenStore` backed by a hash set of token strings.
pub struct HashsetBannedTokenStore {
    tokens: StringHashSet,
}

impl Default for HashsetBannedTokenStore {
    /// An empty store.
    fn default() -> (r: HashsetBannedTokenStore)
        ensures
            r.tokens() == Set::<Seq<char>>::empty(),
    {
        HashsetBannedTokenStore { tokens: StringHashSet::new() }
    }
}

impl BannedTokenStore for HashsetBannedTokenStore {
    closed spec fn tokens(&self) -> Set<Seq<char>> {
        self.tokens@
    }

    fn add_token(&mut self, token: String) -> (r: Result<(), BannedTokenStoreError>) {
        self.tokens.insert(token);
        Ok(())
    }

    fn contains_token(&self, token: &str) -> (r: Result<bool, BannedTokenStoreError>) {
        Ok(self.tokens.contains(token))
    }
}

} // verus!
