//! BLAKE3 over byte strings.

use vstd::prelude::*;

verus! {

/// The 32-byte BLAKE3 digest (default hash mode) of a byte string.
pub uninterp spec fn blake3_digest(input: Seq<u8>) -> Seq<u8>;

/// Concatenation of byte strings, in order.
pub open spec fn concat_bytes(parts: Seq<Seq<u8>>) -> Seq<u8>
    decreases parts.len(),
{
    if parts.len() == 0 {
        Seq::<u8>::empty()
    } else {
        concat_bytes(parts.drop_last()) + parts.last()
    }
}

/// The byte that stands for a flag: 1 for true, 0 for false.
pub open spec fn flag_byte(flag: bool) -> u8 {
    if flag {
        1u8
    } else {
        0u8
    }
}

/// Calls `blake3::hash`. Trusted: the result is the BLAKE3 digest of the
/// input, a function of the input bytes alone.
#[verifier::external_body]
pub(crate) fn blake3_hash(input: &[u8]) -> (digest: [u8; 32])
    ensures
        digest@ == blake3_digest(input@),
{
    blake3::hash(input).into()
}

/// Appends `part` to `buf`.
pub fn absorb(buf: &mut Vec<u8>, part: &[u8])
    ensures
        final(buf)@ == old(buf)@ + part@,
{
    buf.extend_from_slice(part);
}

/// BLAKE3 over the concatenation of `data`, in order.
pub fn hash_multi(data: &Vec<Vec<u8>>) -> (digest: [u8; 32])
    ensures
        digest@ == blake3_digest(concat_bytes(data.deep_view())),
{
    let mut buf: Vec<u8> = Vec::new();
    let mut i: usize = 0;
    while i < data.len()
        invariant
            i <= data.len(),
            buf@ == concat_bytes(data.deep_view().take(i as int)),
        decreases data.len() - i,
    {
        proof {
            let dv = data.deep_view();
            assert(dv.take(i + 1).drop_last() =~= dv.take(i as int));
            assert(dv.take(i + 1).last() == data[i as int]@);
        }
        absorb(&mut buf, data[i].as_slice());
        i += 1;
    }
    proof {
        assert(data.deep_view().take(i as int) =~= data.deep_view());
    }
    blake3_hash(buf.as_slice())
}

} // verus!
