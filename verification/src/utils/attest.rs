//! Raw reports that carry a digest.

use vstd::prelude::*;
use crate::attest::types::RawReport;
use crate::utils::hasher::{blake3_digest, concat_bytes, hash_multi};

verus! {

/// A report field that carries `digest` in its first 32 bytes and zero in
/// the remaining 32.
pub open spec fn report_of_digest(digest: Seq<u8>) -> Seq<u8> {
    Seq::new(64, |i: int| if i < 32 { digest[i] } else { 0u8 })
}

/// A report carries its digest: the first 32 bytes of the report of a
/// 32-byte digest are the digest, and the other 32 are zero.
pub proof fn lemma_report_carries_digest(digest: Seq<u8>)
    requires
        digest.len() == 32,
    ensures
        report_of_digest(digest).len() == 64,
        report_of_digest(digest).subrange(0, 32) == digest,
        forall|i: int| 32 <= i < 64 ==> report_of_digest(digest)[i] == 0u8,
{
    assert(report_of_digest(digest).subrange(0, 32) =~= digest);
}

/// Places `h` in the first 32 bytes of a report and zeroes the rest.
pub fn generate_raw_report_from_hash(h: [u8; 32]) -> (report: RawReport)
    ensures
        report@ == report_of_digest(h@),
{
    let mut report = [0u8; 64];
    let mut i: usize = 0;
    while i < 32
        invariant
            i <= 32,
            forall|j: int| 0 <= j < i ==> report@[j] == h@[j],
            forall|j: int| i <= j < 64 ==> report@[j] == 0u8,
        decreases 32 - i,
    {
        report[i] = h[i];
        i += 1;
    }
    assert(report@ =~= report_of_digest(h@));
    RawReport::new(report)
}

/// Hashes the parts in order with BLAKE3 and places the digest in a report.
pub fn generate_raw_report(data: &Vec<Vec<u8>>) -> (report: RawReport)
    ensures
        report@ == report_of_digest(blake3_digest(concat_bytes(data.deep_view()))),
{
    let h = hash_multi(data);
    generate_raw_report_from_hash(h)
}

} // verus!
