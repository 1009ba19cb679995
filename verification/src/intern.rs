//! The content hash behind the string interner and the global-variable
//! table: a 64-bit FNV-1a digest of a string's characters. Hashing is
//! deterministic and pure, so equal contents always share a hash and the
//! hash can serve as a stable identifier embedded in bytecode.
use vstd::prelude::*;

verus! {

/// The FNV-1a 64-bit offset basis.
pub const FNV_OFFSET: u64 = 0xcbf2_9ce4_8422_2325;

/// The FNV-1a 64-bit prime.
pub const FNV_PRIME: u64 = 0x0000_0100_0000_01b3;

/// One round of FNV-1a: fold a character into the running digest.
pub open spec fn hash_step(h: u64, c: char) -> u64 {
    (h ^ (c as u64)).wrapping_mul(FNV_PRIME)
}

/// The digest of the first `n` characters of `s`.
pub open spec fn hash_prefix(s: Seq<char>, n: int) -> u64
    recommends
        0 <= n <= s.len(),
    decreases n,
{
    if n <= 0 {
        FNV_OFFSET
    } else {
        hash_step(hash_prefix(s, n - 1), s[n - 1])
    }
}

/// The 64-bit content hash of a string.
pub open spec fn str_hash(s: Seq<char>) -> u64 {
    hash_prefix(s, s.len() as int)
}

/// Compute the content hash of a string, character by character.
pub fn calc_hash(s: &str) -> (h: u64)
    ensures
        h == str_hash(s@),
{
    let n = s.unicode_len();
    let mut h: u64 = FNV_OFFSET;
    let mut i: usize = 0;
    while i < n
        invariant
            n as nat == s@.len(),
            i <= n,
            h == hash_prefix(s@, i as int),
        decreases n - i,
    {
        let c = s.get_char(i);
        h = (h ^ (c as u64)).wrapping_mul(FNV_PRIME);
        i = i + 1;
    }
    h
}

} // verus!
