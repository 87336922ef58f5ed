//! Ordering of participant keys and record-initialization checks.

use vstd::prelude::*;
use crate::errors::WeddingError;
use crate::ledger::{Account, Ledger, initialized, lamports_of, record_of};
use crate::pubkey::{Pubkey, pubkey_lt, pubkey_less};
use crate::state::Address;

verus! {

/// What the emptiness check of a participant slot answers: the slot must
/// hold neither stored data nor funds before an agreement may claim it.
pub open spec fn validate_partner_spec(m: Map<Address, Account>, a: Address) -> Result<
    (),
    WeddingError,
> {
    if record_of(m, a) is Some {
        Err(WeddingError::PartnerDataNotEmpty)
    } else if lamports_of(m, a) > 0 {
        Err(WeddingError::PartnerBalanceNotZero)
    } else {
        Ok(())
    }
}

/// Checks that the participant slot at `address` is still free: no
/// stored data and no funds. This is how "a person may only be
/// mid-agreement with one partner at a time" is enforced: the address is
/// inspected, no registry is consulted.
pub fn validate_partner(ledger: &Ledger, address: &Address) -> (r: Result<(), WeddingError>)
    requires
        ledger.wf(),
    ensures
        r == validate_partner_spec(ledger@, *address),
{
    match ledger.read(address) {
        None => Ok(()),
        Some(acc) => {
            if acc.record.is_some() {
                Err(WeddingError::PartnerDataNotEmpty)
            } else if acc.lamports > 0 {
                Err(WeddingError::PartnerBalanceNotZero)
            } else {
                Ok(())
            }
        },
    }
}

/// Whether the address already carries state: stored data or funds.
/// A record is live exactly when its derived address answers true.
pub fn check_account_initialized(ledger: &Ledger, address: &Address) -> (r: bool)
    requires
        ledger.wf(),
    ensures
        r == initialized(ledger@, *address),
{
    match ledger.read(address) {
        None => false,
        Some(acc) => acc.record.is_some() || acc.lamports > 0,
    }
}

/// Returns the two keys in canonical order: the lexicographically smaller
/// first. Equal keys come back in the order given.
pub fn sort_pubkeys<'a>(pubkey_a: &'a Pubkey, pubkey_b: &'a Pubkey) -> (r: (&'a Pubkey, &'a Pubkey))
    ensures
        *r.0 == (if pubkey_lt(*pubkey_b, *pubkey_a) { *pubkey_b } else { *pubkey_a }),
        *r.1 == (if pubkey_lt(*pubkey_b, *pubkey_a) { *pubkey_a } else { *pubkey_b }),
        !pubkey_lt(*r.1, *r.0),
{
    if pubkey_less(pubkey_b, pubkey_a) {
        (pubkey_b, pubkey_a)
    } else {
        (pubkey_a, pubkey_b)
    }
}

} // verus!
