//! Deterministic derivation of on-chain record addresses.
//!
//! The host ledger derives a record's address from a namespace tag and
//! ordered seed bytes, with no central allocator; the engine in
//! `instructions` works over the canonical `Address` form of those seeds,
//! and this module maps the same seeds to the host's 32-byte addresses.

use vstd::prelude::*;
use crate::pubkey::{Pubkey, pubkey_lt};
use crate::util::sort_pubkeys;

verus! {

/// The address and bump the host's derivation primitive returns for a
/// namespace tag, ordered seed keys and deriving program, or nothing in
/// the statistically improbable case that no bump works. The derivation
/// is a pure function of exactly these inputs.
pub uninterp spec fn pda_of(tag: Seq<u8>, seeds: Seq<Pubkey>, program_id: Pubkey) -> Option<(Pubkey, u8)>;

/// The namespace tag of partner records: the bytes of `"partner"`.
pub open spec fn partner_tag() -> Seq<u8> {
    seq![112u8, 97u8, 114u8, 116u8, 110u8, 101u8, 114u8]
}

/// The namespace tag of agreement records: the bytes of `"wedding"`.
pub open spec fn wedding_tag() -> Seq<u8> {
    seq![119u8, 101u8, 100u8, 100u8, 105u8, 110u8, 103u8]
}

/// The bytes of `"partner"`, as seed material.
pub fn partner_tag_bytes() -> (r: Vec<u8>)
    ensures
        r@ == partner_tag(),
{
    let mut r: Vec<u8> = Vec::new();
    r.push(112);
    r.push(97);
    r.push(114);
    r.push(116);
    r.push(110);
    r.push(101);
    r.push(114);
    proof {
        assert(r@ =~= partner_tag());
    }
    r
}

/// The bytes of `"wedding"`, as seed material.
pub fn wedding_tag_bytes() -> (r: Vec<u8>)
    ensures
        r@ == wedding_tag(),
{
    let mut r: Vec<u8> = Vec::new();
    r.push(119);
    r.push(101);
    r.push(100);
    r.push(100);
    r.push(105);
    r.push(110);
    r.push(103);
    proof {
        assert(r@ =~= wedding_tag());
    }
    r
}

/// One big-endian word of a key as eight bytes, most significant first.
pub open spec fn word_be(w: u64) -> Seq<u8> {
    seq![
        (w >> 56) as u8,
        (w >> 48) as u8,
        (w >> 40) as u8,
        (w >> 32) as u8,
        (w >> 24) as u8,
        (w >> 16) as u8,
        (w >> 8) as u8,
        w as u8,
    ]
}

/// The 32 raw bytes of a key, word by word, big-endian.
pub open spec fn key_bytes(k: Pubkey) -> Seq<u8> {
    word_be(k.w0) + word_be(k.w1) + word_be(k.w2) + word_be(k.w3)
}

/// One big-endian word read from eight bytes of `b` starting at `off`.
pub open spec fn word_at(b: Seq<u8>, off: int) -> u64 {
    ((b[off] as u64) << 56) | ((b[off + 1] as u64) << 48) | ((b[off + 2] as u64) << 40) | ((b[off
        + 3] as u64) << 32) | ((b[off + 4] as u64) << 24) | ((b[off + 5] as u64) << 16) | ((b[off
        + 6] as u64) << 8) | (b[off + 7] as u64)
}

/// The key whose 32 raw bytes are `b`.
pub open spec fn key_of_bytes(b: Seq<u8>) -> Pubkey {
    Pubkey { w0: word_at(b, 0), w1: word_at(b, 8), w2: word_at(b, 16), w3: word_at(b, 24) }
}

fn push_word_be(r: &mut Vec<u8>, w: u64)
    ensures
        final(r)@ == old(r)@ + word_be(w),
{
    r.push((w >> 56) as u8);
    r.push((w >> 48) as u8);
    r.push((w >> 40) as u8);
    r.push((w >> 32) as u8);
    r.push((w >> 24) as u8);
    r.push((w >> 16) as u8);
    r.push((w >> 8) as u8);
    r.push(w as u8);
    proof {
        assert(r@ =~= old(r)@ + word_be(w));
    }
}

/// The 32 raw bytes of a key, most significant byte of `w0` first.
pub fn key_to_bytes(k: &Pubkey) -> (r: Vec<u8>)
    ensures
        r@ == key_bytes(*k),
        r@.len() == 32,
{
    let mut r: Vec<u8> = Vec::new();
    push_word_be(&mut r, k.w0);
    push_word_be(&mut r, k.w1);
    push_word_be(&mut r, k.w2);
    push_word_be(&mut r, k.w3);
    proof {
        assert(r@ =~= key_bytes(*k));
    }
    r
}

fn word_from_slice(b: &[u8], off: usize) -> (r: u64)
    requires
        off + 8 <= b@.len(),
    ensures
        r == word_at(b@, off as int),
{
    ((b[off] as u64) << 56) | ((b[off + 1] as u64) << 48) | ((b[off + 2] as u64) << 40) | ((b[off
        + 3] as u64) << 32) | ((b[off + 4] as u64) << 24) | ((b[off + 5] as u64) << 16) | ((b[off
        + 6] as u64) << 8) | (b[off + 7] as u64)
}

/// The key whose 32 raw bytes are `b`.
pub fn key_from_slice(b: &[u8]) -> (r: Pubkey)
    requires
        b@.len() == 32,
    ensures
        r == key_of_bytes(b@),
{
    Pubkey {
        w0: word_from_slice(b, 0),
        w1: word_from_slice(b, 8),
        w2: word_from_slice(b, 16),
        w3: word_from_slice(b, 24),
    }
}

/// Relies on `anchor_lang::prelude::Pubkey::try_find_program_address`:
/// the returned address and bump are a pure function of the tag, the
/// seed keys and the program id alone. It returns `None` when the seeds
/// are unusable (too many, or over-long) or in the statistically
/// improbable case that no bump seed yields a valid address.
#[verifier::external_body]
fn try_find_pda(tag: &Vec<u8>, seeds: &Vec<Pubkey>, program_id: &Pubkey) -> (r: Option<
    (Pubkey, u8),
>)
    ensures
        r == pda_of(tag@, seeds@, *program_id),
{
    let seed_bytes: Vec<Vec<u8>> = seeds.iter().map(key_to_bytes).collect();
    let mut slices: Vec<&[u8]> = Vec::new();
    slices.push(tag.as_slice());
    for sb in seed_bytes.iter() {
        slices.push(sb.as_slice());
    }
    let pid = anchor_lang::prelude::Pubkey::try_from(key_to_bytes(program_id).as_slice()).unwrap();
    anchor_lang::prelude::Pubkey::try_find_program_address(&slices, &pid).map(
        |(k, bump)| (key_from_slice(&k.to_bytes()), bump),
    )
}

/// What the partner-record derivation returns for a user's key.
pub open spec fn partner_pda_spec(user: Pubkey, program_id: Pubkey) -> Option<(Pubkey, u8)> {
    pda_of(partner_tag(), seq![user], program_id)
}

/// Derives the on-chain address of `user`'s partner record, from the
/// user's key alone.
pub fn derive_partner_address(user: &Pubkey, program_id: &Pubkey) -> (r: Option<(Pubkey, u8)>)
    ensures
        r == partner_pda_spec(*user, *program_id),
{
    let tag = partner_tag_bytes();
    let mut seeds: Vec<Pubkey> = Vec::new();
    seeds.push(*user);
    proof {
        assert(seeds@ =~= seq![*user]);
    }
    try_find_pda(&tag, &seeds, program_id)
}

/// What the agreement derivation returns for an unordered pair of users:
/// both partner record addresses are derived first, and seed the
/// agreement address in canonical order, the lexicographically smaller
/// address before the larger.
pub open spec fn wedding_pda_spec(user_a: Pubkey, user_b: Pubkey, program_id: Pubkey) -> Option<
    (Pubkey, u8),
> {
    match (partner_pda_spec(user_a, program_id), partner_pda_spec(user_b, program_id)) {
        (Some(pa), Some(pb)) => {
            let lo = if pubkey_lt(pb.0, pa.0) {
                pb.0
            } else {
                pa.0
            };
            let hi = if pubkey_lt(pb.0, pa.0) {
                pa.0
            } else {
                pb.0
            };
            pda_of(wedding_tag(), seq![lo, hi], program_id)
        },
        _ => None,
    }
}

/// Derives the on-chain address of the agreement record for the pair
/// `{user_a, user_b}`.
pub fn derive_wedding_address(user_a: &Pubkey, user_b: &Pubkey, program_id: &Pubkey) -> (r: Option<
    (Pubkey, u8),
>)
    ensures
        r == wedding_pda_spec(*user_a, *user_b, *program_id),
{
    let pa = derive_partner_address(user_a, program_id);
    let pb = derive_partner_address(user_b, program_id);
    match (pa, pb) {
        (Some(pa), Some(pb)) => {
            let (lo, hi) = sort_pubkeys(&pa.0, &pb.0);
            let tag = wedding_tag_bytes();
            let mut seeds: Vec<Pubkey> = Vec::new();
            seeds.push(*lo);
            seeds.push(*hi);
            proof {
                assert(seeds@ =~= seq![*lo, *hi]);
            }
            try_find_pda(&tag, &seeds, program_id)
        },
        _ => None,
    }
}

/// The derived agreement address is identical whichever way round the
/// two participants' keys are supplied: the seed pair is canonically
/// ordered before derivation.
pub proof fn lemma_wedding_pda_commutes(user_a: Pubkey, user_b: Pubkey, program_id: Pubkey)
    ensures
        wedding_pda_spec(user_a, user_b, program_id) == wedding_pda_spec(
            user_b,
            user_a,
            program_id,
        ),
{
    match (partner_pda_spec(user_a, program_id), partner_pda_spec(user_b, program_id)) {
        (Some(pa), Some(pb)) => {
            crate::pubkey::lemma_pubkey_order_total(pa.0, pb.0);
        },
        _ => {},
    }
}

} // verus!
