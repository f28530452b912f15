//! The two capabilities the library takes from outside crates: a keyed
//! message-authentication tag and a source of randomness. Everything built
//! on them is verified against the contracts stated here.
use vstd::prelude::*;

use hmac::Mac;

verus! {

/// The HMAC-SHA-256 tag of `msg` (as UTF-8 bytes) under `key`. The tag is a
/// function of key and message alone, which is all the token logic relies
/// on; its value is not modelled.
pub uninterp spec fn hmac_tag_of(key: Seq<u8>, msg: Seq<char>) -> Seq<u8>;

/// Relies on `hmac::Hmac<sha2::Sha256>`: the tag depends on the key and the
/// message alone. `Mac::new_from_slice` accepts a key of any length for an
/// HMAC, so the call cannot fail.
#[verifier::external_body]
pub(crate) fn hmac_sha256_tag(key: &[u8], msg: &str) -> (r: Vec<u8>)
    ensures
        r@ == hmac_tag_of(key@, msg@),
{
    let mut mac = <hmac::Hmac<sha2::Sha256> as Mac>::new_from_slice(key).unwrap();
    mac.update(msg.as_bytes());
    mac.finalize().into_bytes().to_vec()
}

/// Relies on `rand::random`: a fresh pseudo-random value on each call.
/// Nothing is promised of the result; whatever comes back, the minting code
/// built on it is verified for every value.
#[verifier::external_body]
pub(crate) fn random_u64() -> u64 {
    rand::random::<u64>()
}

} // verus!
