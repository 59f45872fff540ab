//! Content fingerprinting: a fixed-size digest of a byte buffer, used to
//! detect whether editor content differs from what was last persisted.

use vstd::prelude::*;
use tiny_keccak::Hasher;
use tiny_keccak::Sha3;

verus! {

/// The SHA3-256 digest of a byte sequence. The digest is a pure function of
/// the input bytes alone, so equal inputs always yield equal digests.
pub uninterp spec fn sha3_of(data: Seq<u8>) -> Seq<u8>;

/// Relies on tiny_keccak's `Sha3::v256` / `update` / `finalize`: the 32-byte
/// SHA3-256 digest of the input, determined by the input bytes alone.
#[verifier::external_body]
pub(crate) fn get_hash(data: &[u8]) -> (r: [u8; 32])
    ensures
        r@ == sha3_of(data@),
{
    let mut sha3 = Sha3::v256();
    let mut hash = [0u8; 32];
    sha3.update(data);
    sha3.finalize(&mut hash);
    hash
}

/// Fingerprinting is deterministic: two digests computed over the same byte
/// sequence are equal.
pub proof fn lemma_fingerprint_deterministic(data: Seq<u8>, h1: Seq<u8>, h2: Seq<u8>)
    requires
        h1 == sha3_of(data),
        h2 == sha3_of(data),
    ensures
        h1 == h2,
{
}

} // verus!
