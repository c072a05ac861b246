use vstd::prelude::*;
use sha3::Digest;

verus! {

/// The SHA3-256 digest of a byte sequence. The digest itself is computed by
/// the `sha3` crate; only its length and its determinism are stated here.
pub uninterp spec fn sha3_256_of(data: Seq<u8>) -> Seq<u8>;

/// Relies on `sha3::Sha3_256` through `Digest::digest`: a 256-bit digest,
/// a function of the input bytes alone, and it never fails.
#[verifier::external_body]
pub(crate) fn sha3_256(data: &[u8]) -> (r: Vec<u8>)
    ensures
        r@ == sha3_256_of(data@),
        r@.len() == 32,
{
    sha3::Sha3_256::digest(data).to_vec()
}

} // verus!
