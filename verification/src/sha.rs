//! SHA-256, which the `sha2` crate computes.

use sha2::Digest;
use vstd::prelude::*;

verus! {

/// The SHA-256 digest of `data`, as [`sha2::Sha256::digest`] computes it. The
/// hash is named and not defined here: what is known of it is that equal
/// bytes have equal digests.
pub uninterp spec fn sha256_digest(data: Seq<u8>) -> Seq<u8>;

/// Calls [`sha2::Sha256::digest`], the one-shot form of the hasher, on `data`.
///
/// Believed of it: the 32 bytes that come back are fixed by the bytes of
/// `data` and by nothing else, so that they can bear the name
/// [`sha256_digest`].
#[verifier::external_body]
pub(crate) fn sha256(data: &[u8]) -> (digest: [u8; 32])
    ensures
        digest@ == sha256_digest(data@),
{
    sha2::Sha256::digest(data).into()
}

} // verus!
