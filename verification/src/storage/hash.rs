//! Content hashes.

use vstd::prelude::*;

verus! {

/// The number of bytes of a hash and of every identifier made from one.
pub const HASH_LEN: usize = 32;

/// The BLAKE3 hash of some bytes, as `blake3::hash` computes it.
pub uninterp spec fn blake3_digest(input: Seq<u8>) -> Seq<u8>;

/// `blake3::hash` and `Hash::as_bytes`: the BLAKE3 hash of the input, which
/// has 32 bytes.
#[verifier::external_body]
pub(crate) fn digest(input: &[u8]) -> (r: Vec<u8>)
    ensures
        r@ == blake3_digest(input@),
        r@.len() == HASH_LEN,
{
    blake3::hash(input).as_bytes().to_vec()
}

} // verus!
