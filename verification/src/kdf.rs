//! The key derivation function: SHA-256 of an encoded group element.

use sha2::{Digest, Sha256};
use vstd::prelude::*;

verus! {

/// Number of bytes in a derived key.
pub const DIGEST_LEN: usize = 32;

/// The SHA-256 digest of `data`, as `Sha256::finalize` returns it after one
/// `Digest::update` with `data`.
pub uninterp spec fn sha256(data: Seq<u8>) -> Seq<u8>;

/// Calls `Sha256::new`, `Digest::update` and `Digest::finalize`.
///
/// Trusted: the result is the SHA-256 digest of `x`, which is 32 bytes long.
#[verifier::external_body]
pub(crate) fn h(x: Vec<u8>) -> (digest: Vec<u8>)
    ensures
        digest@ == sha256(x@),
        digest@.len() == DIGEST_LEN,
{
    let mut sh = Sha256::new();
    sh.update(x);
    sh.finalize().to_vec()
}

} // verus!
