//! The keyed-hash primitive behind the code derivation: HMAC-SHA1 as a
//! trusted black box, named for the contracts by [`hmac_sha1`].

use vstd::prelude::*;

use hmac::{Hmac, KeyInit, Mac};
use sha1::Sha1;

verus! {

/// The 20-byte HMAC-SHA1 digest of a message under a key (RFC 2104 over
/// SHA-1): a function of the two byte sequences alone.
pub uninterp spec fn hmac_sha1(key: Seq<u8>, msg: Seq<u8>) -> Seq<u8>;

/// Relies on hmac's `Hmac<Sha1>`: RFC 2104 keyed hashing over SHA-1,
/// which accepts a key of any length (`new_from_slice` never fails for
/// HMAC) and yields a digest of SHA-1's 20-byte output size.
#[verifier::external_body]
pub fn hmac_sha1_digest(key: &[u8], msg: &[u8]) -> (digest: Vec<u8>)
    ensures
        digest@ == hmac_sha1(key@, msg@),
        digest@.len() == 20,
{
    let mut m = <Hmac<Sha1> as KeyInit>::new_from_slice(key)
        .expect("HMAC accepts keys of any length");
    m.update(msg);
    m.finalize().into_bytes().to_vec()
}

} // verus!
