//! Record schema: addresses, agreement records and partner records.

use vstd::prelude::*;
use vstd::string::StringSliceAdditionalSpecFns;
use crate::pubkey::{Pubkey, pubkey_lt};
use crate::util::sort_pubkeys;

verus! {

/// Lifecycle of an agreement.
#[derive(Clone, Copy, Debug, PartialEq, Eq, Structural)]
pub enum Status {
    Created,
    Marrying,
    Married,
    Divorcing,
    Divorced,
}

/// A canonical ledger address. The host derives record addresses
/// deterministically from a namespace tag and seed bytes with no central
/// allocator; here an address is the tag and seeds themselves, so two
/// derivations collide exactly when their seeds coincide.
#[derive(Clone, Copy, Debug, PartialEq, Eq, Hash, Structural)]
pub enum Address {
    /// A plain account owned by a user, addressed by the user's own key.
    User(Pubkey),
    /// A user's partner record, derived from the owner's key alone.
    PartnerPda(Pubkey),
    /// A pair's agreement record, derived from the pair's two partner
    /// record addresses taken in canonical order: the two owner keys
    /// appear sorted lexicographically, smaller first.
    WeddingPda(Pubkey, Pubkey),
}

/// The canonical agreement address for the unordered pair `{a, b}`:
/// the owner keys enter sorted, so `{a, b}` and `{b, a}` give one address.
pub open spec fn wedding_address_spec(a: Pubkey, b: Pubkey) -> Address {
    if pubkey_lt(b, a) {
        Address::WeddingPda(b, a)
    } else {
        Address::WeddingPda(a, b)
    }
}

/// Computes the canonical agreement address for the unordered pair
/// `{a, b}` of participant keys.
pub fn wedding_address(a: &Pubkey, b: &Pubkey) -> (r: Address)
    ensures
        r == wedding_address_spec(*a, *b),
{
    let (low, high) = sort_pubkeys(a, b);
    Address::WeddingPda(*low, *high)
}

/// The derived agreement address is the same whichever way round the two
/// participant keys are supplied.
pub proof fn lemma_wedding_address_commutes(a: Pubkey, b: Pubkey)
    ensures
        wedding_address_spec(a, b) == wedding_address_spec(b, a),
{
    crate::pubkey::lemma_pubkey_order_total(a, b);
}

/// One agreement between two participants, stored at the canonical
/// address derived from the pair.
#[derive(Clone, Copy, Debug, PartialEq, Eq, Structural)]
pub struct Wedding {
    /// The identity that funded creation; the deposit returns here when
    /// the record closes. Need not be one of the two participants.
    pub creator: Pubkey,
    /// Partner record address of the participant whose key sorts first.
    pub partner0: Address,
    /// Partner record address of the participant whose key sorts second.
    pub partner1: Address,
    pub status: Status,
}

impl Wedding {
    /// Bytes of ledger storage an agreement record occupies:
    /// an 8-byte header, three 32-byte addresses and a 2-byte status tag.
    pub fn space() -> (r: usize)
        ensures
            r == 106,
    {
        8 + (32 * 3) + 2
    }

    /// Of two participant keys, the one whose partner record address
    /// seeds the agreement address first (the lexicographically smaller).
    pub fn seed_partner0<'a>(pubkey_a: &'a Pubkey, pubkey_b: &'a Pubkey) -> (r: &'a Pubkey)
        ensures
            *r == (if pubkey_lt(*pubkey_b, *pubkey_a) { *pubkey_b } else { *pubkey_a }),
    {
        let (pubkey0, _) = sort_pubkeys(pubkey_a, pubkey_b);

        pubkey0
    }

    /// Of two participant keys, the one whose partner record address
    /// seeds the agreement address second (the lexicographically larger).
    pub fn seed_partner1<'a>(pubkey_a: &'a Pubkey, pubkey_b: &'a Pubkey) -> (r: &'a Pubkey)
        ensures
            *r == (if pubkey_lt(*pubkey_b, *pubkey_a) { *pubkey_a } else { *pubkey_b }),
    {
        let (_, pubkey1) = sort_pubkeys(pubkey_a, pubkey_b);

        pubkey1
    }
}

/// One user's declared participation in one agreement, stored at the
/// address derived from the owner's key alone.
#[derive(Debug)]
pub struct Partner {
    /// Address of the agreement record this participant belongs to. It may
    /// be recorded before that agreement record exists; every operation
    /// that loads both checks that they reference each other.
    pub wedding: Address,
    /// The identity whose signature authorizes mutation of this record.
    pub user: Pubkey,
    /// Display name, free text.
    pub name: String,
    /// Vow text, free text.
    pub vows: String,
    /// This participant's current consent flag.
    pub answer: bool,
}

impl Clone for Partner {
    fn clone(&self) -> (r: Self)
        ensures
            r == *self,
    {
        Partner {
            wedding: self.wedding,
            user: self.user,
            name: self.name.clone(),
            vows: self.vows.clone(),
            answer: self.answer,
        }
    }
}

impl Partner {
    /// Bytes of ledger storage a partner record occupies: an 8-byte
    /// header, two 32-byte addresses, the two length-prefixed texts and a
    /// 1-byte consent flag.
    pub fn space(name: &str, vows: &str) -> (r: usize)
        requires
            81 + name.spec_bytes().len() + vows.spec_bytes().len() <= usize::MAX,
        ensures
            r == 81 + name.spec_bytes().len() + vows.spec_bytes().len(),
    {
        8 + (32 * 2) + 4 + name.len() + 4 + vows.len() + 1
    }
}

} // verus!
