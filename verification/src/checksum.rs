//! Content digest of archive bytes.
//!
//! The registry's locked content-addressing rests on a fixed-length,
//! deterministic digest of the stored bytes. The digest itself is computed by
//! an outside implementation of SHA-256; what this module knows of it is only
//! that it is a function of the bytes alone, named `sha256_hex_of`, and that
//! the hex rendering is 64 characters long.

use sha2::Digest;
use vstd::prelude::*;

verus! {

/// The lower-case hex rendering of the SHA-256 digest of `bytes`.
pub uninterp spec fn sha256_hex_of(bytes: Seq<u8>) -> Seq<char>;

/// Relies on sha2's `Sha256`: the digest depends on the input bytes alone and
/// is 32 bytes long, so its `LowerHex` rendering has 64 characters.
#[verifier::external_body]
pub(crate) fn sha256_hex(data: &[u8]) -> (r: String)
    ensures
        r@ == sha256_hex_of(data@),
        r@.len() == 64,
{
    let mut hasher = sha2::Sha256::new();
    hasher.update(data);
    format!("{:x}", hasher.finalize())
}

} // verus!
