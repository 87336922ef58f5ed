//! The six transition operations of the agreement engine.
//!
//! Every operation executes as one atomic transaction: it either fully
//! applies its effect or fails with a named error and leaves the ledger
//! unchanged. The caller (`user` or `creator`) is the transaction's
//! signer; the host has already verified that signature, so possession
//! of a key is what authorizes mutation of that key's own records.

use vstd::prelude::*;
use crate::errors::WeddingError;
use crate::ledger::{
    Ledger, credited, debited, initialized, lamports_of, partner_at, record_of, wedding_at,
    with_partner, with_wedding,
};
use crate::pubkey::{Pubkey, pubkey_lt};
use crate::state::{Address, Partner, Status, Wedding, wedding_address, wedding_address_spec};
use crate::util::{sort_pubkeys, validate_partner, validate_partner_spec, check_account_initialized};

verus! {

/// The ledger after a successful agreement creation: `deposit` moved
/// from the creator into a fresh agreement record for the pair, with
/// the two partner record addresses stored sorted and status `Created`.
pub open spec fn setup_wedding_ok(
    m: Map<Address, crate::ledger::Account>,
    creator: Pubkey,
    user_partner0: Pubkey,
    user_partner1: Pubkey,
    deposit: u64,
) -> Map<Address, crate::ledger::Account> {
    let wa = wedding_address_spec(user_partner0, user_partner1);
    let lo = if pubkey_lt(user_partner1, user_partner0) {
        user_partner1
    } else {
        user_partner0
    };
    let hi = if pubkey_lt(user_partner1, user_partner0) {
        user_partner0
    } else {
        user_partner1
    };
    let w = (Wedding {
        creator,
        partner0: Address::PartnerPda(lo),
        partner1: Address::PartnerPda(hi),
        status: Status::Created,
    });
    with_wedding(credited(debited(m, Address::User(creator), deposit), wa, deposit), wa, w)
}

/// Initiates an agreement for the pair `{user_partner0, user_partner1}`,
/// funded by `creator` (who need not be a participant). Fails, leaving
/// the ledger unchanged, if either participant's derived partner record
/// address already carries data or funds; the first participant is
/// checked first. The agreement record itself must not exist yet: the
/// host's create primitive is create-if-absent.
pub fn setup_wedding(
    ledger: &mut Ledger,
    creator: Pubkey,
    user_partner0: Pubkey,
    user_partner1: Pubkey,
    deposit: u64,
) -> (r: Result<(), WeddingError>)
    requires
        old(ledger).wf(),
        record_of(old(ledger)@, wedding_address_spec(user_partner0, user_partner1)) is None,
        deposit <= lamports_of(old(ledger)@, Address::User(creator)),
        lamports_of(old(ledger)@, wedding_address_spec(user_partner0, user_partner1)) + deposit
            <= u64::MAX,
    ensures
        final(ledger).wf(),
        ({
            let m = old(ledger)@;
            let v0 = validate_partner_spec(m, Address::PartnerPda(user_partner0));
            let v1 = validate_partner_spec(m, Address::PartnerPda(user_partner1));
            match r {
                Ok(_) => v0 is Ok && v1 is Ok && final(ledger)@ == setup_wedding_ok(
                    m,
                    creator,
                    user_partner0,
                    user_partner1,
                    deposit,
                ),
                Err(e) => final(ledger)@ == m && (if v0 is Err {
                    e == v0->Err_0
                } else {
                    v1 is Err && e == v1->Err_0
                }),
            }
        }),
{
    let p0 = Address::PartnerPda(user_partner0);
    let p1 = Address::PartnerPda(user_partner1);
    match validate_partner(ledger, &p0) {
        Err(e) => {
            return Err(e);
        },
        Ok(_) => {},
    }
    match validate_partner(ledger, &p1) {
        Err(e) => {
            return Err(e);
        },
        Ok(_) => {},
    }
    let wa = wedding_address(&user_partner0, &user_partner1);
    let (low, high) = sort_pubkeys(&user_partner0, &user_partner1);
    let w = Wedding {
        creator,
        partner0: Address::PartnerPda(*low),
        partner1: Address::PartnerPda(*high),
        status: Status::Created,
    };
    ledger.debit(Address::User(creator), deposit);
    ledger.credit(wa, deposit);
    ledger.write_wedding(wa, w);
    Ok(())
}

/// Registers `user` as a participant: creates the partner record derived
/// from `user`'s key alone, funded by `user` with `deposit`, referencing
/// the canonical agreement address for `{user, other}`, with consent
/// still withheld. The agreement record need not exist yet; consistency
/// is enforced whenever both records are loaded together. The partner
/// record itself must not exist yet: the host's create primitive is
/// create-if-absent.
pub fn setup_partner(
    ledger: &mut Ledger,
    user: Pubkey,
    other: Pubkey,
    name: String,
    vows: String,
    deposit: u64,
) -> (r: Result<(), WeddingError>)
    requires
        old(ledger).wf(),
        record_of(old(ledger)@, Address::PartnerPda(user)) is None,
        deposit <= lamports_of(old(ledger)@, Address::User(user)),
        lamports_of(old(ledger)@, Address::PartnerPda(user)) + deposit <= u64::MAX,
    ensures
        final(ledger).wf(),
        r is Ok,
        final(ledger)@ == with_partner(
            credited(
                debited(old(ledger)@, Address::User(user), deposit),
                Address::PartnerPda(user),
                deposit,
            ),
            Address::PartnerPda(user),
            (Partner {
                wedding: wedding_address_spec(user, other),
                user,
                name,
                vows,
                answer: false,
            }),
        ),
{
    let pa = Address::PartnerPda(user);
    let wa = wedding_address(&user, &other);
    ledger.debit(Address::User(user), deposit);
    ledger.credit(pa, deposit);
    ledger.write_partner(pa, Partner { wedding: wa, user, name, vows, answer: false });
    Ok(())
}

/// Records `user`'s consent flag and advances the agreement:
/// `Created` moves to `Marrying` on a true answer; `Marrying` moves to
/// `Married` when the answer is true and the counterpart's recorded
/// consent is already true; a false answer leaves the status unchanged
/// but still records the caller's flag. In any other status the call
/// fails. Both partner records must reference the loaded agreement.
/// The two partner records and the agreement record are the accounts
/// the host loads for this call: they must exist, or the host fails the
/// transaction before the operation runs.
pub fn give_answer(ledger: &mut Ledger, user: Pubkey, other: Pubkey, answer: bool) -> (r: Result<
    (),
    WeddingError,
>)
    requires
        old(ledger).wf(),
        partner_at(old(ledger)@, Address::PartnerPda(user)) is Some,
        partner_at(old(ledger)@, Address::PartnerPda(other)) is Some,
        wedding_at(old(ledger)@, wedding_address_spec(user, other)) is Some,
    ensures
        final(ledger).wf(),
        ({
            let m = old(ledger)@;
            let pa = Address::PartnerPda(user);
            let oa = Address::PartnerPda(other);
            let wa = wedding_address_spec(user, other);
            let p = partner_at(m, pa)->Some_0;
            let o = partner_at(m, oa)->Some_0;
            let w = wedding_at(m, wa)->Some_0;
            let p2 = (Partner {
                wedding: p.wedding,
                user: p.user,
                name: p.name,
                vows: p.vows,
                answer,
            });
            if p.wedding != wa || o.wedding != wa {
                r is Err && r->Err_0 == WeddingError::PartnerWeddingNotWedding && final(ledger)@
                    == m
            } else if w.status == Status::Created {
                let status = if answer {
                    Status::Marrying
                } else {
                    Status::Created
                };
                let w2 = (Wedding {
                    creator: w.creator,
                    partner0: w.partner0,
                    partner1: w.partner1,
                    status,
                });
                r is Ok && final(ledger)@ == with_wedding(with_partner(m, pa, p2), wa, w2)
            } else if w.status == Status::Marrying {
                let status = if answer && o.answer {
                    Status::Married
                } else {
                    Status::Marrying
                };
                let w2 = (Wedding {
                    creator: w.creator,
                    partner0: w.partner0,
                    partner1: w.partner1,
                    status,
                });
                r is Ok && final(ledger)@ == with_wedding(with_partner(m, pa, p2), wa, w2)
            } else {
                r is Err && r->Err_0 == WeddingError::InvalidAnswerStatus && final(ledger)@ == m
            }
        }),
{
    let pa = Address::PartnerPda(user);
    let oa = Address::PartnerPda(other);
    let wa = wedding_address(&user, &other);
    let p = ledger.read_partner(&pa).unwrap();
    let o = ledger.read_partner(&oa).unwrap();
    let w = ledger.read_wedding(&wa).unwrap();
    if p.wedding != wa {
        return Err(WeddingError::PartnerWeddingNotWedding);
    }
    if o.wedding != wa {
        return Err(WeddingError::PartnerWeddingNotWedding);
    }
    match w.status {
        Status::Created => {
            let status = if answer {
                Status::Marrying
            } else {
                Status::Created
            };
            ledger.write_partner(
                pa,
                Partner { wedding: p.wedding, user: p.user, name: p.name, vows: p.vows, answer },
            );
            ledger.write_wedding(
                wa,
                Wedding { creator: w.creator, partner0: w.partner0, partner1: w.partner1, status },
            );
            Ok(())
        },
        Status::Marrying => {
            let status = if answer && o.answer {
                Status::Married
            } else {
                Status::Marrying
            };
            ledger.write_partner(
                pa,
                Partner { wedding: p.wedding, user: p.user, name: p.name, vows: p.vows, answer },
            );
            ledger.write_wedding(
                wa,
                Wedding { creator: w.creator, partner0: w.partner0, partner1: w.partner1, status },
            );
            Ok(())
        },
        _ => Err(WeddingError::InvalidAnswerStatus),
    }
}

/// Ends the agreement from `user`'s side. The caller's consent flag is
/// forced off whatever it was; consent must be actively re-given to
/// remarry. From `Married` the agreement moves to `Divorcing`; from
/// `Divorcing` it waits while the counterpart's flag is still true and
/// closes once it is false, refunding the whole deposit to the recorded
/// creator, who must match the supplied refund target. In any other
/// status the call fails. The two partner records and the agreement
/// record are the accounts the host loads for this call: they must
/// exist, or the host fails the transaction before the operation runs.
pub fn divorce(ledger: &mut Ledger, user: Pubkey, other: Pubkey, creator: Pubkey) -> (r: Result<
    (),
    WeddingError,
>)
    requires
        old(ledger).wf(),
        partner_at(old(ledger)@, Address::PartnerPda(user)) is Some,
        partner_at(old(ledger)@, Address::PartnerPda(other)) is Some,
        wedding_at(old(ledger)@, wedding_address_spec(user, other)) is Some,
        lamports_of(old(ledger)@, Address::User(creator)) + lamports_of(
            old(ledger)@,
            wedding_address_spec(user, other),
        ) <= u64::MAX,
    ensures
        final(ledger).wf(),
        ({
            let m = old(ledger)@;
            let pa = Address::PartnerPda(user);
            let oa = Address::PartnerPda(other);
            let wa = wedding_address_spec(user, other);
            let p = partner_at(m, pa)->Some_0;
            let o = partner_at(m, oa)->Some_0;
            let w = wedding_at(m, wa)->Some_0;
            let p2 = (Partner {
                wedding: p.wedding,
                user: p.user,
                name: p.name,
                vows: p.vows,
                answer: false,
            });
            if p.wedding != wa || o.wedding != wa {
                r is Err && r->Err_0 == WeddingError::PartnerWeddingNotWedding && final(ledger)@
                    == m
            } else if w.creator != creator {
                r is Err && r->Err_0 == WeddingError::InvalidCreator && final(ledger)@ == m
            } else if w.status == Status::Married {
                let w2 = (Wedding {
                    creator: w.creator,
                    partner0: w.partner0,
                    partner1: w.partner1,
                    status: Status::Divorcing,
                });
                r is Ok && final(ledger)@ == with_wedding(with_partner(m, pa, p2), wa, w2)
            } else if w.status == Status::Divorcing && o.answer {
                r is Ok && final(ledger)@ == with_partner(m, pa, p2)
            } else if w.status == Status::Divorcing && !o.answer {
                r is Ok && final(ledger)@ == credited(
                    with_partner(m, pa, p2).remove(wa),
                    Address::User(creator),
                    lamports_of(m, wa),
                )
            } else {
                r is Err && r->Err_0 == WeddingError::InvalidDivorceStatus && final(ledger)@ == m
            }
        }),
{
    let pa = Address::PartnerPda(user);
    let oa = Address::PartnerPda(other);
    let wa = wedding_address(&user, &other);
    let p = ledger.read_partner(&pa).unwrap();
    let o = ledger.read_partner(&oa).unwrap();
    let w = ledger.read_wedding(&wa).unwrap();
    if p.wedding != wa {
        return Err(WeddingError::PartnerWeddingNotWedding);
    }
    if o.wedding != wa {
        return Err(WeddingError::PartnerWeddingNotWedding);
    }
    if w.creator != creator {
        return Err(WeddingError::InvalidCreator);
    }
    match w.status {
        Status::Married => {
            ledger.write_partner(
                pa,
                Partner {
                    wedding: p.wedding,
                    user: p.user,
                    name: p.name,
                    vows: p.vows,
                    answer: false,
                },
            );
            ledger.write_wedding(
                wa,
                Wedding {
                    creator: w.creator,
                    partner0: w.partner0,
                    partner1: w.partner1,
                    status: Status::Divorcing,
                },
            );
            Ok(())
        },
        Status::Divorcing => {
            ledger.write_partner(
                pa,
                Partner {
                    wedding: p.wedding,
                    user: p.user,
                    name: p.name,
                    vows: p.vows,
                    answer: false,
                },
            );
            if !o.answer {
                let closed = ledger.delete(&wa).unwrap();
                ledger.credit(Address::User(creator), closed.lamports);
            }
            Ok(())
        },
        _ => Err(WeddingError::InvalidDivorceStatus),
    }
}

/// Cancels an agreement that has not yet been concluded: allowed only
/// while the status is `Created` or `Marrying`, and only to one of the
/// two recorded participants or to the creator. Closing removes the
/// agreement record and refunds its whole balance to the recorded
/// creator, who must match the supplied refund target. The agreement
/// record is the account the host loads for this call: it must exist,
/// or the host fails the transaction before the operation runs.
pub fn cancel_wedding(
    ledger: &mut Ledger,
    user: Pubkey,
    creator: Pubkey,
    user_partner0: Pubkey,
    user_partner1: Pubkey,
) -> (r: Result<(), WeddingError>)
    requires
        old(ledger).wf(),
        wedding_at(old(ledger)@, wedding_address_spec(user_partner0, user_partner1)) is Some,
        lamports_of(old(ledger)@, Address::User(creator)) + lamports_of(
            old(ledger)@,
            wedding_address_spec(user_partner0, user_partner1),
        ) <= u64::MAX,
    ensures
        final(ledger).wf(),
        ({
            let m = old(ledger)@;
            let wa = wedding_address_spec(user_partner0, user_partner1);
            let w = wedding_at(m, wa)->Some_0;
            let member = Address::PartnerPda(user) == w.partner0 || Address::PartnerPda(user)
                == w.partner1 || user == w.creator;
            if w.creator != creator {
                r is Err && r->Err_0 == WeddingError::InvalidCreator && final(ledger)@ == m
            } else if !member {
                r is Err && r->Err_0 == WeddingError::NotWeddingMember && final(ledger)@ == m
            } else if w.status != Status::Created && w.status != Status::Marrying {
                r is Err && r->Err_0 == WeddingError::CannotCancel && final(ledger)@ == m
            } else {
                r is Ok && final(ledger)@ == credited(
                    m.remove(wa),
                    Address::User(creator),
                    lamports_of(m, wa),
                )
            }
        }),
{
    let wa = wedding_address(&user_partner0, &user_partner1);
    let w = ledger.read_wedding(&wa).unwrap();
    if w.creator != creator {
        return Err(WeddingError::InvalidCreator);
    }
    let user_pda = Address::PartnerPda(user);
    let user_matches0 = user_pda == w.partner0;
    let user_matches1 = user_pda == w.partner1;
    let user_matches_creator = user == w.creator;
    if !(user_matches0 || user_matches1 || user_matches_creator) {
        return Err(WeddingError::NotWeddingMember);
    }
    if w.status != Status::Created && w.status != Status::Marrying {
        return Err(WeddingError::CannotCancel);
    }
    let closed = ledger.delete(&wa).unwrap();
    ledger.credit(Address::User(creator), closed.lamports);
    Ok(())
}

/// Reclaims `user`'s own partner record once no agreement record exists
/// for the pair `{user, other}`: the record must itself reference that
/// agreement address (so a forged `other` cannot bypass the liveness
/// check), and the agreement address must carry no data and no funds.
/// Closing removes the partner record and refunds its whole balance to
/// `user`. The caller's partner record is the account the host loads
/// for this call: it must exist, or the host fails the transaction
/// before the operation runs.
pub fn close_partner(ledger: &mut Ledger, user: Pubkey, other: Pubkey) -> (r: Result<
    (),
    WeddingError,
>)
    requires
        old(ledger).wf(),
        partner_at(old(ledger)@, Address::PartnerPda(user)) is Some,
        lamports_of(old(ledger)@, Address::User(user)) + lamports_of(
            old(ledger)@,
            Address::PartnerPda(user),
        ) <= u64::MAX,
    ensures
        final(ledger).wf(),
        ({
            let m = old(ledger)@;
            let pa = Address::PartnerPda(user);
            let wa = wedding_address_spec(user, other);
            let p = partner_at(m, pa)->Some_0;
            if p.wedding != wa {
                r is Err && r->Err_0 == WeddingError::PartnerWeddingNotWedding && final(ledger)@
                    == m
            } else if initialized(m, wa) {
                r is Err && r->Err_0 == WeddingError::WeddingInitialized && final(ledger)@ == m
            } else {
                r is Ok && final(ledger)@ == credited(
                    m.remove(pa),
                    Address::User(user),
                    lamports_of(m, pa),
                )
            }
        }),
{
    let pa = Address::PartnerPda(user);
    let wa = wedding_address(&user, &other);
    let p = ledger.read_partner(&pa).unwrap();
    if p.wedding != wa {
        return Err(WeddingError::PartnerWeddingNotWedding);
    }
    if check_account_initialized(ledger, &wa) {
        return Err(WeddingError::WeddingInitialized);
    }
    let closed = ledger.delete(&pa).unwrap();
    ledger.credit(Address::User(user), closed.lamports);
    Ok(())
}

} // verus!

