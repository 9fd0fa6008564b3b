//! CRC-32 checksums, computed by the `crc32fast` crate.

use vstd::prelude::*;

verus! {

/// The CRC-32 (IEEE) checksum of a byte sequence, as `crc32fast::hash` gives it.
pub uninterp spec fn crc32(data: Seq<u8>) -> u32;

/// `crc32fast::hash`: the checksum of `data`.
#[verifier::external_body]
pub(crate) fn crc32_of(data: &[u8]) -> (crc: u32)
    ensures
        crc == crc32(data@),
{
    crc32fast::hash(data)
}

/// `crc32fast::Hasher::new_with_initial`, `update` and `finalize`: goes on from
/// the checksum of some bytes to the checksum of those bytes followed by
/// `data`. The state of the hasher is the checksum itself, so it does not
/// matter which bytes gave it.
#[verifier::external_body]
pub(crate) fn crc32_extend(crc: u32, data: &[u8]) -> (extended: u32)
    ensures
        forall|before: Seq<u8>|
            crc == #[trigger] crc32(before) ==> extended == crc32(before + data@),
{
    let mut hasher = crc32fast::Hasher::new_with_initial(crc);
    hasher.update(data);
    hasher.finalize()
}

} // verus!
