//! CRC-32 hashing of decompressed payloads.
//!
//! The hash itself is computed by the crc32fast crate; this module gives
//! its streaming hasher a contract.  The digest is named, not spelled out:
//! [`crc32_of`] stands for the CRC-32 (IEEE) of a byte sequence, and the
//! hasher's state is tracked as the sequence of bytes fed so far.

use vstd::prelude::*;

verus! {

/// The CRC-32 (IEEE) checksum of a byte sequence, as crc32fast computes
/// it.  The result depends on the bytes alone.
pub uninterp spec fn crc32_of(bytes: Seq<u8>) -> u32;

/// The bytes fed to a crc32fast hasher since its construction.
pub uninterp spec fn hasher_fed(h: crc32fast::Hasher) -> Seq<u8>;

#[verifier::external_type_specification]
#[verifier::external_body]
pub struct ExHasher(crc32fast::Hasher);

/// Relies on crc32fast's `Hasher::new`: a fresh hasher with nothing fed.
#[verifier::external_body]
pub(crate) fn hasher_new() -> (h: crc32fast::Hasher)
    ensures
        hasher_fed(h) == Seq::<u8>::empty(),
{
    crc32fast::Hasher::new()
}

/// Relies on crc32fast's `Hasher::update`: the fed bytes grow by exactly
/// the given slice.
#[verifier::external_body]
pub(crate) fn hasher_update(h: &mut crc32fast::Hasher, bytes: &[u8])
    requires
        hasher_fed(*old(h)).len() + bytes@.len() <= u64::MAX,
    ensures
        hasher_fed(*final(h)) == hasher_fed(*old(h)) + bytes@,
{
    h.update(bytes);
}

/// Relies on crc32fast's `Hasher::finalize`: the CRC-32 of everything fed,
/// a function of those bytes alone.
#[verifier::external_body]
pub(crate) fn hasher_finalize(h: crc32fast::Hasher) -> (r: u32)
    ensures
        r == crc32_of(hasher_fed(h)),
{
    h.finalize()
}

} // verus!
