//! Address canonicalization and on-chain derivation.

use crypto_wedding::pda::{derive_partner_address, derive_wedding_address, key_from_slice, key_to_bytes};
use crypto_wedding::pubkey::{pubkey_less, Pubkey};
use crypto_wedding::state::{wedding_address, Address, Partner, Wedding};
use crypto_wedding::util::sort_pubkeys;

fn key(w0: u64, w1: u64, w2: u64, w3: u64) -> Pubkey {
    Pubkey { w0, w1, w2, w3 }
}

fn anchor_key(k: &Pubkey) -> anchor_lang::prelude::Pubkey {
    let bytes: [u8; 32] = key_to_bytes(k).try_into().unwrap();
    anchor_lang::prelude::Pubkey::new_from_array(bytes)
}

#[test]
fn pubkey_order_is_lexicographic_on_bytes() {
    let a = key(1, 0, 0, 0);
    let b = key(1, 0, 0, 2);
    assert!(pubkey_less(&a, &b));
    assert!(!pubkey_less(&b, &a));
    assert!(!pubkey_less(&a, &a));
    // The byte comparison agrees with the word comparison.
    assert!(key_to_bytes(&a) < key_to_bytes(&b));
}

#[test]
fn sort_pubkeys_puts_smaller_first() {
    let a = key(5, 1, 2, 3);
    let b = key(9, 1, 2, 3);
    let (low, high) = sort_pubkeys(&a, &b);
    assert_eq!((*low, *high), (a, b));
    let (low, high) = sort_pubkeys(&b, &a);
    assert_eq!((*low, *high), (a, b));
    let (low, high) = sort_pubkeys(&a, &a);
    assert_eq!((*low, *high), (a, a));
}

#[test]
fn wedding_address_is_commutative() {
    let a = key(7, 7, 7, 7);
    let b = key(3, 3, 3, 3);
    assert_eq!(wedding_address(&a, &b), wedding_address(&b, &a));
    assert_eq!(wedding_address(&a, &b), Address::WeddingPda(b, a));
}

#[test]
fn seed_partners_are_sorted() {
    let a = key(2, 0, 0, 1);
    let b = key(2, 0, 0, 0);
    assert_eq!(*Wedding::seed_partner0(&a, &b), b);
    assert_eq!(*Wedding::seed_partner1(&a, &b), a);
    assert_eq!(*Wedding::seed_partner0(&b, &a), b);
    assert_eq!(*Wedding::seed_partner1(&b, &a), a);
}

#[test]
fn record_space_formulas() {
    assert_eq!(Wedding::space(), 106);
    // 81 fixed bytes plus the byte lengths of name and vows.
    assert_eq!(Partner::space("Alice", "I do"), 81 + 5 + 4);
    assert_eq!(Partner::space("", ""), 81);
}

#[test]
fn key_bytes_round_trip_and_layout() {
    let k = key(
        0x0102030405060708,
        0x090a0b0c0d0e0f10,
        0x1112131415161718,
        0x191a1b1c1d1e1f20,
    );
    let bytes = key_to_bytes(&k);
    let expected: Vec<u8> = (1u8..=32u8).collect();
    assert_eq!(bytes, expected);
    assert_eq!(key_from_slice(&bytes), k);
}

#[test]
fn derive_partner_address_matches_host_derivation() {
    let user = key(11, 22, 33, 44);
    let program = key(1, 2, 3, 4);
    let (got, bump) = derive_partner_address(&user, &program).unwrap();
    let user_bytes = key_to_bytes(&user);
    let (want, want_bump) = anchor_lang::prelude::Pubkey::find_program_address(
        &[b"partner", user_bytes.as_slice()],
        &anchor_key(&program),
    );
    assert_eq!(key_to_bytes(&got), want.to_bytes().to_vec());
    assert_eq!(bump, want_bump);
    // The derived address is not the seed handed in.
    assert_ne!(got, user);
}

#[test]
fn derive_wedding_address_matches_host_derivation() {
    let a = key(100, 0, 0, 1);
    let b = key(2, 0, 50, 0);
    let program = key(1, 2, 3, 4);
    let (got, bump) = derive_wedding_address(&a, &b, &program).unwrap();

    let (pda_a, _) = derive_partner_address(&a, &program).unwrap();
    let (pda_b, _) = derive_partner_address(&b, &program).unwrap();
    let mut lo = key_to_bytes(&pda_a);
    let mut hi = key_to_bytes(&pda_b);
    if hi < lo {
        std::mem::swap(&mut lo, &mut hi);
    }
    let (want, want_bump) = anchor_lang::prelude::Pubkey::find_program_address(
        &[b"wedding", lo.as_slice(), hi.as_slice()],
        &anchor_key(&program),
    );
    assert_eq!(key_to_bytes(&got), want.to_bytes().to_vec());
    assert_eq!(bump, want_bump);
}

#[test]
fn derive_wedding_address_is_commutative() {
    let a = key(0, 0, 0, 9);
    let b = key(0, 4, 0, 0);
    let program = key(5, 6, 7, 8);
    assert_eq!(
        derive_wedding_address(&a, &b, &program),
        derive_wedding_address(&b, &a, &program),
    );
}
