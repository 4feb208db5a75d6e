//! Content hashing for the memoization caches and for tab identities.
//!
//! A 64-bit FNV-1a digest over bytes. The caches compare this digest against
//! the digest stored with a cached value to decide whether the value is stale;
//! tab identities are the digest of an identity seed string.

use vstd::prelude::*;

verus! {

pub const FNV_OFFSET: u64 = 0xcbf29ce484222325;

pub const FNV_PRIME: u64 = 0x100000001b3;

/// One FNV-1a round: fold one byte into the running digest.
pub open spec fn fnv1a_step(h: u64, b: u8) -> u64 {
    vstd::wrapping::u64_specs::wrapping_mul(h ^ (b as u64), FNV_PRIME)
}

/// The digest after folding `s[i..]` into the running digest `h`.
pub open spec fn fnv1a_from(s: Seq<u8>, i: int, h: u64) -> u64
    decreases s.len() - i,
{
    if i < 0 || i >= s.len() {
        h
    } else {
        fnv1a_from(s, i + 1, fnv1a_step(h, s[i]))
    }
}

/// The 64-bit FNV-1a digest of a byte sequence.
pub open spec fn fnv1a(s: Seq<u8>) -> u64 {
    fnv1a_from(s, 0, FNV_OFFSET)
}

/// The digest of a string: FNV-1a over its UTF-8 encoding.
pub open spec fn str_hash(s: Seq<char>) -> u64 {
    fnv1a(vstd::utf8::encode_utf8(s))
}

/// Computes the FNV-1a digest of `bytes`.
pub fn content_hash(bytes: &[u8]) -> (h: u64)
    ensures
        h == fnv1a(bytes@),
{
    let mut h: u64 = FNV_OFFSET;
    let mut i: usize = 0;
    while i < bytes.len()
        invariant
            i <= bytes@.len(),
            fnv1a_from(bytes@, i as int, h) == fnv1a(bytes@),
        decreases bytes@.len() - i,
    {
        h = (h ^ (bytes[i] as u64)).wrapping_mul(FNV_PRIME);
        i = i + 1;
    }
    h
}

/// Computes the digest of a string's UTF-8 bytes.
pub fn hash_str(s: &str) -> (h: u64)
    ensures
        h == str_hash(s@),
{
    content_hash(s.as_bytes())
}

} // verus!
