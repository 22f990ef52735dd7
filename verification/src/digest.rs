//! Content digests: the 256-bit BLAKE3 hash by which installed files are
//! told apart.

use vstd::prelude::*;

verus! {

/// Number of bytes in a content digest.
pub const DIGEST_LEN: usize = 32;

/// The BLAKE3 hash of `data`, as the `blake3` crate computes it.
pub uninterp spec fn blake3_hash(data: Seq<u8>) -> Seq<u8>;

/// A 256-bit content hash.
#[derive(Clone, Copy, Debug, PartialEq, Eq)]
pub struct Digest {
    pub bytes: [u8; 32],
}

impl View for Digest {
    type V = Seq<u8>;

    open spec fn view(&self) -> Seq<u8> {
        self.bytes@
    }
}

/// Calls `blake3::hash` on `data` and copies the 32 bytes out of the
/// returned `blake3::Hash`. The digest is taken to be a function of the
/// input bytes alone, named [`blake3_hash`]; nothing else is claimed of it.
#[verifier::external_body]
fn blake3_of(data: &[u8]) -> (bytes: [u8; 32])
    ensures
        bytes@ == blake3_hash(data@),
{
    *blake3::hash(data).as_bytes()
}

impl Digest {
    /// Hashes `data`.
    pub fn of(data: &[u8]) -> (digest: Digest)
        ensures
            digest@ == blake3_hash(data@),
            digest@.len() == DIGEST_LEN,
    {
        Digest { bytes: blake3_of(data) }
    }

    /// Wraps 32 raw bytes as a digest.
    pub fn from_bytes(bytes: [u8; 32]) -> (digest: Digest)
        ensures
            digest@ == bytes@,
    {
        Digest { bytes }
    }

    /// Whether two digests hold the same bytes.
    pub fn same(&self, other: &Digest) -> (equal: bool)
        ensures
            equal <==> self@ == other@,
    {
        let mut i: usize = 0;
        while i < 32
            invariant
                i <= 32,
                forall|j: int| 0 <= j < i ==> self.bytes@[j] == other.bytes@[j],
            decreases 32 - i,
        {
            if self.bytes[i] != other.bytes[i] {
                return false;
            }
            i += 1;
        }
        assert(self@ =~= other@);
        true
    }
}

} // verus!
