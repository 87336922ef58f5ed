//! Identities and addresses as plain 32-byte values.

use vstd::prelude::*;

verus! {

/// A 32-byte public key or account address, held as four 64-bit words in
/// big-endian order: `w0` holds bytes 0..8 of the key, `w1` bytes 8..16,
/// `w2` bytes 16..24 and `w3` bytes 24..32, each word with its most
/// significant byte first. Comparing keys word by word in field order is
/// therefore the same as comparing the 32 raw bytes lexicographically.
#[derive(Clone, Copy, Debug, PartialEq, Eq, Hash, Structural)]
pub struct Pubkey {
    pub w0: u64,
    pub w1: u64,
    pub w2: u64,
    pub w3: u64,
}

/// Strict lexicographic order on the 32 bytes of two keys, expressed over
/// the big-endian words.
pub open spec fn pubkey_lt(a: Pubkey, b: Pubkey) -> bool {
    ||| a.w0 < b.w0
    ||| (a.w0 == b.w0 && a.w1 < b.w1)
    ||| (a.w0 == b.w0 && a.w1 == b.w1 && a.w2 < b.w2)
    ||| (a.w0 == b.w0 && a.w1 == b.w1 && a.w2 == b.w2 && a.w3 < b.w3)
}

/// Decides the strict lexicographic order `pubkey_lt` on two keys.
pub fn pubkey_less(a: &Pubkey, b: &Pubkey) -> (r: bool)
    ensures
        r == pubkey_lt(*a, *b),
{
    if a.w0 != b.w0 {
        a.w0 < b.w0
    } else if a.w1 != b.w1 {
        a.w1 < b.w1
    } else if a.w2 != b.w2 {
        a.w2 < b.w2
    } else {
        a.w3 < b.w3
    }
}

/// The lexicographic order on keys is total: two keys are equal, or one is
/// strictly below the other.
pub proof fn lemma_pubkey_order_total(a: Pubkey, b: Pubkey)
    ensures
        pubkey_lt(a, b) || pubkey_lt(b, a) || a == b,
        !(pubkey_lt(a, b) && pubkey_lt(b, a)),
        !(pubkey_lt(a, b) && a == b),
{
}

} // verus!
