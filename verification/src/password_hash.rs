//! Salted one-way password verification: the stores never hold a password,
//! only a random salt and the HMAC-SHA-256 tag of the password under that
//! salt, and verification recomputes and compares the tag.
use vstd::prelude::*;

use crate::crypto::{hmac_sha256_tag, hmac_tag_of, random_u64};
use crate::password::Password;

verus! {

/// The salted one-way hash of a password: a fresh random salt and the tag
/// of the password under it.
#[derive(Debug)]
pub struct PasswordHash {
    salt: Vec<u8>,
    tag: Vec<u8>,
}

/// The mathematical content of a salted password hash.
pub ghost struct PasswordHashView {
    pub salt: Seq<u8>,
    pub tag: Seq<u8>,
}

impl View for PasswordHash {
    type V = PasswordHashView;

    closed spec fn view(&self) -> PasswordHashView {
        PasswordHashView { salt: self.salt@, tag: self.tag@ }
    }
}

impl Clone for PasswordHash {
    fn clone(&self) -> (r: PasswordHash)
        ensures
            r@ == self@,
    {
        let salt = clone_bytes(&self.salt);
        let tag = clone_bytes(&self.tag);
        PasswordHash { salt, tag }
    }
}

impl PasswordHash {
    /// Hashes `password` under a fresh random salt.
    pub fn of(password: &Password) -> (r: PasswordHash)
        ensures
            r@.tag == hmac_tag_of(r@.salt, password@),
    {
        let salt = mint_salt();
        let tag = hmac_sha256_tag(salt.as_slice(), password.as_str());
        PasswordHash { salt, tag }
    }

    /// Whether `password` hashes to this record's tag under its salt.
    pub fn matches(&self, password: &Password) -> (r: bool)
        ensures
            r == (self@.tag == hmac_tag_of(self@.salt, password@)),
    {
        let tag = hmac_sha256_tag(self.salt.as_slice(), password.as_str());
        bytes_eq(tag.as_slice(), self.tag.as_slice())
    }
}

/// Sixteen fresh random bytes.
fn mint_salt() -> (r: Vec<u8>) {
    let mut out: Vec<u8> = Vec::new();
    let mut hi = random_u64();
    let mut lo = random_u64();
    let mut k: usize = 0;
    while k < 8
        decreases 8 - k,
    {
        out.push((hi % 256) as u8);
        hi = hi / 256;
        out.push((lo % 256) as u8);
        lo = lo / 256;
        k += 1;
    }
    out
}

/// Whether two byte strings are equal.
fn bytes_eq(a: &[u8], b: &[u8]) -> (r: bool)
    ensures
        r == (a@ == b@),
{
    if a.len() != b.len() {
        return false;
    }
    let n = a.len();
    let mut i: usize = 0;
    while i < n
        invariant
            i <= n,
            n == a@.len() == b@.len(),
            forall|j: int| 0 <= j < i ==> a@[j] == b@[j],
        decreases n - i,
    {
        if a[i] != b[i] {
            return false;
        }
        i += 1;
    }
    proof {
        assert(a@ =~= b@);
    }
    true
}

/// Cloning a byte string keeps its contents.
fn clone_bytes(v: &Vec<u8>) -> (r: Vec<u8>)
    ensures
        r@ == v@,
{
    let n = v.len();
    let mut out: Vec<u8> = Vec::new();
    let mut i: usize = 0;
    while i < n
        invariant
            i <= n,
            n == v@.len(),
            out@ == v@.take(i as int),
        decreases n - i,
    {
        out.push(v[i]);
        proof {
            assert(out@ =~= v@.take(i + 1));
        }
        i += 1;
    }
    proof {
        assert(v@.take(n as int) =~= v@);
    }
    out
}

} // verus!
