//! The seed corpus's size and its FNV-1a fingerprint: one number that
//! identical corpus bytes always give, on every target.
use vstd::prelude::*;
use vstd::string::StringSliceAdditionalSpecFns;

verus! {

/// The FNV-1a (32-bit) offset basis.
pub const FNV_OFFSET: u32 = 0x811c9dc5;

/// The FNV-1a (32-bit) prime.
pub const FNV_PRIME: u32 = 0x01000193;

/// FNV-1a over bytes: start from the offset basis; for each byte, xor it
/// in and multiply by the prime modulo 2^32.
pub open spec fn fnv1a(bytes: Seq<u8>) -> u32
    decreases bytes.len(),
{
    if bytes.len() == 0 {
        FNV_OFFSET
    } else {
        (((fnv1a(bytes.drop_last()) ^ (bytes.last() as u32)) as nat * FNV_PRIME as nat) % 0x1_0000_0000) as u32
    }
}

/// The FNV-1a fingerprint of some bytes.
pub fn fnv1a_32(bytes: &[u8]) -> (r: u32)
    ensures
        r == fnv1a(bytes@),
{
    let mut hash: u32 = FNV_OFFSET;
    let mut i: usize = 0;
    while i < bytes.len()
        invariant
            i <= bytes@.len(),
            hash == fnv1a(bytes@.take(i as int)),
        decreases bytes@.len() - i,
    {
        proof {
            assert(bytes@.take(i + 1).drop_last() =~= bytes@.take(i as int));
        }
        hash = hash ^ (bytes[i] as u32);
        hash = hash.wrapping_mul(FNV_PRIME);
        i += 1;
    }
    assert(bytes@.take(i as int) =~= bytes@);
    hash
}

/// Size of the seed corpus in bytes.
pub fn seed_corpus_size(corpus: &str) -> (r: usize)
    ensures
        r == corpus.spec_bytes().len(),
{
    corpus.as_bytes().len()
}

/// The corpus's FNV-1a fingerprint, over its UTF-8 bytes.
pub fn seed_corpus_fingerprint(corpus: &str) -> (r: u32)
    ensures
        r == fnv1a(corpus.spec_bytes()),
{
    fnv1a_32(corpus.as_bytes())
}

} // verus!
