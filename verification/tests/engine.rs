//! The consent and divorce state machines over the modelled ledger.

use crypto_wedding::errors::WeddingError;
use crypto_wedding::instructions::{
    cancel_wedding, close_partner, divorce, give_answer, setup_partner, setup_wedding,
};
use crypto_wedding::ledger::Ledger;
use crypto_wedding::pubkey::Pubkey;
use crypto_wedding::state::{wedding_address, Address, Status};
use crypto_wedding::util::{check_account_initialized, validate_partner};

fn key(n: u64) -> Pubkey {
    Pubkey { w0: n, w1: 0, w2: 0, w3: 0 }
}

const DEPOSIT: u64 = 1_000;

/// A ledger where each given user holds 10_000 lamports.
fn funded(users: &[Pubkey]) -> Ledger {
    let mut ledger = Ledger::new();
    for u in users {
        ledger.credit(Address::User(*u), 10_000);
    }
    ledger
}

/// Initiates the agreement as creator `c`, then registers both
/// partners. Initiation must come first: it demands both participant
/// slots still empty.
fn engaged(a: Pubkey, b: Pubkey, c: Pubkey) -> Ledger {
    let mut ledger = funded(&[a, b, c]);
    setup_wedding(&mut ledger, c, a, b, DEPOSIT).unwrap();
    setup_partner(&mut ledger, a, b, "Alice".to_string(), "always".to_string(), DEPOSIT).unwrap();
    setup_partner(&mut ledger, b, a, "Bob".to_string(), "forever".to_string(), DEPOSIT).unwrap();
    ledger
}

/// Drives a fresh agreement to the Married status.
fn married(a: Pubkey, b: Pubkey, c: Pubkey) -> Ledger {
    let mut ledger = engaged(a, b, c);
    give_answer(&mut ledger, a, b, true).unwrap();
    give_answer(&mut ledger, b, a, true).unwrap();
    ledger
}

#[test]
fn setup_partner_records_declaration() {
    let a = key(1);
    let b = key(2);
    let mut ledger = funded(&[a, b]);
    setup_partner(&mut ledger, a, b, "Alice".to_string(), "always".to_string(), DEPOSIT).unwrap();
    let p = ledger.read_partner(&Address::PartnerPda(a)).unwrap();
    assert_eq!(p.user, a);
    assert_eq!(p.wedding, wedding_address(&a, &b));
    assert_eq!(p.name, "Alice");
    assert_eq!(p.vows, "always");
    assert!(!p.answer);
    assert_eq!(ledger.lamports(&Address::PartnerPda(a)), DEPOSIT);
    assert_eq!(ledger.lamports(&Address::User(a)), 10_000 - DEPOSIT);
}

#[test]
fn setup_wedding_creates_created_record() {
    let a = key(1);
    let b = key(2);
    let c = key(3);
    let mut ledger = funded(&[a, b, c]);
    setup_wedding(&mut ledger, c, a, b, DEPOSIT).unwrap();
    let wa = wedding_address(&a, &b);
    let w = ledger.read_wedding(&wa).unwrap();
    assert_eq!(w.status, Status::Created);
    assert_eq!(w.creator, c);
    assert_eq!(w.partner0, Address::PartnerPda(a));
    assert_eq!(w.partner1, Address::PartnerPda(b));
    assert_eq!(ledger.lamports(&wa), DEPOSIT);
    assert_eq!(ledger.lamports(&Address::User(c)), 10_000 - DEPOSIT);
}

#[test]
fn setup_wedding_rejects_occupied_partner_data() {
    let a = key(1);
    let b = key(2);
    let c = key(3);
    let mut ledger = funded(&[a, b, c]);
    // One side has already registered: its record address carries data.
    setup_partner(&mut ledger, a, b, "Alice".to_string(), "always".to_string(), DEPOSIT).unwrap();
    assert_eq!(
        setup_wedding(&mut ledger, c, a, b, DEPOSIT),
        Err(WeddingError::PartnerDataNotEmpty)
    );
    assert!(ledger.read_wedding(&wedding_address(&a, &b)).is_none());
}

#[test]
fn setup_wedding_rejects_nonzero_partner_balance() {
    let a = key(1);
    let b = key(2);
    let c = key(3);
    let mut ledger = funded(&[a, b, c]);
    // Someone sent funds to b's record address without creating data.
    ledger.credit(Address::PartnerPda(b), 1);
    assert_eq!(
        setup_wedding(&mut ledger, c, a, b, DEPOSIT),
        Err(WeddingError::PartnerBalanceNotZero)
    );
    assert!(ledger.read_wedding(&wedding_address(&a, &b)).is_none());
    assert_eq!(ledger.lamports(&Address::User(c)), 10_000);
}

#[test]
fn validate_partner_reports_each_obstacle() {
    let a = key(1);
    let b = key(2);
    let mut ledger = funded(&[a, b]);
    assert_eq!(validate_partner(&ledger, &Address::PartnerPda(a)), Ok(()));
    ledger.credit(Address::PartnerPda(a), 5);
    assert_eq!(
        validate_partner(&ledger, &Address::PartnerPda(a)),
        Err(WeddingError::PartnerBalanceNotZero)
    );
    setup_partner(&mut ledger, b, a, "Bob".to_string(), "forever".to_string(), DEPOSIT).unwrap();
    assert_eq!(
        validate_partner(&ledger, &Address::PartnerPda(b)),
        Err(WeddingError::PartnerDataNotEmpty)
    );
}

#[test]
fn answer_true_moves_created_to_marrying() {
    let a = key(1);
    let b = key(2);
    let c = key(3);
    let mut ledger = engaged(a, b, c);
    give_answer(&mut ledger, a, b, true).unwrap();
    let w = ledger.read_wedding(&wedding_address(&a, &b)).unwrap();
    assert_eq!(w.status, Status::Marrying);
    assert!(ledger.read_partner(&Address::PartnerPda(a)).unwrap().answer);
}

#[test]
fn answer_false_keeps_status_but_records_flag() {
    let a = key(1);
    let b = key(2);
    let c = key(3);
    let mut ledger = engaged(a, b, c);
    give_answer(&mut ledger, a, b, true).unwrap();
    // A false answer in Marrying leaves the status, but flips the flag.
    give_answer(&mut ledger, a, b, false).unwrap();
    let w = ledger.read_wedding(&wedding_address(&a, &b)).unwrap();
    assert_eq!(w.status, Status::Marrying);
    assert!(!ledger.read_partner(&Address::PartnerPda(a)).unwrap().answer);
    // A false answer in Created also leaves the status.
    let mut fresh = engaged(a, b, c);
    give_answer(&mut fresh, a, b, false).unwrap();
    let w = fresh.read_wedding(&wedding_address(&a, &b)).unwrap();
    assert_eq!(w.status, Status::Created);
}

#[test]
fn marrying_needs_both_consents_for_married() {
    let a = key(1);
    let b = key(2);
    let c = key(3);
    let mut ledger = engaged(a, b, c);
    give_answer(&mut ledger, a, b, true).unwrap();
    // b answers true while a's flag is already true: married.
    give_answer(&mut ledger, b, a, true).unwrap();
    let w = ledger.read_wedding(&wedding_address(&a, &b)).unwrap();
    assert_eq!(w.status, Status::Married);
}

#[test]
fn marrying_stays_when_counterpart_withholds() {
    let a = key(1);
    let b = key(2);
    let c = key(3);
    let mut ledger = engaged(a, b, c);
    give_answer(&mut ledger, a, b, true).unwrap();
    give_answer(&mut ledger, a, b, false).unwrap();
    // a's flag is false now, so b's true answer cannot conclude.
    give_answer(&mut ledger, b, a, true).unwrap();
    let w = ledger.read_wedding(&wedding_address(&a, &b)).unwrap();
    assert_eq!(w.status, Status::Marrying);
}

#[test]
fn answering_after_married_fails() {
    let a = key(1);
    let b = key(2);
    let c = key(3);
    let mut ledger = married(a, b, c);
    assert_eq!(
        give_answer(&mut ledger, a, b, false),
        Err(WeddingError::InvalidAnswerStatus)
    );
    // While divorcing it fails as well.
    divorce(&mut ledger, a, b, c).unwrap();
    assert_eq!(
        give_answer(&mut ledger, b, a, true),
        Err(WeddingError::InvalidAnswerStatus)
    );
}

#[test]
fn answer_rejects_mismatched_agreement() {
    let a = key(1);
    let b = key(2);
    let c = key(3);
    let f = key(6);
    let mut ledger = funded(&[a, b, c, f]);
    setup_wedding(&mut ledger, c, a, b, DEPOSIT).unwrap();
    // a registered toward f, not toward b: a's record references the
    // agreement derived for (a, f), not the one loaded for (a, b).
    setup_partner(&mut ledger, a, f, "Alice".to_string(), "always".to_string(), DEPOSIT).unwrap();
    setup_partner(&mut ledger, b, a, "Bob".to_string(), "forever".to_string(), DEPOSIT).unwrap();
    // The mismatch is refused whichever of the two makes the call.
    assert_eq!(
        give_answer(&mut ledger, a, b, true),
        Err(WeddingError::PartnerWeddingNotWedding)
    );
    assert_eq!(
        give_answer(&mut ledger, b, a, true),
        Err(WeddingError::PartnerWeddingNotWedding)
    );
}

#[test]
fn divorce_moves_married_to_divorcing() {
    let a = key(1);
    let b = key(2);
    let c = key(3);
    let mut ledger = married(a, b, c);
    divorce(&mut ledger, a, b, c).unwrap();
    let w = ledger.read_wedding(&wedding_address(&a, &b)).unwrap();
    assert_eq!(w.status, Status::Divorcing);
    // The caller's consent is forced off.
    assert!(!ledger.read_partner(&Address::PartnerPda(a)).unwrap().answer);
}

#[test]
fn divorce_waits_while_counterpart_still_consents() {
    let a = key(1);
    let b = key(2);
    let c = key(3);
    let mut ledger = married(a, b, c);
    divorce(&mut ledger, b, a, c).unwrap();
    // a's flag is still true, so b's second call keeps waiting.
    divorce(&mut ledger, b, a, c).unwrap();
    let w = ledger.read_wedding(&wedding_address(&a, &b)).unwrap();
    assert_eq!(w.status, Status::Divorcing);
}

#[test]
fn divorce_closes_once_counterpart_withdrew() {
    let a = key(1);
    let b = key(2);
    let c = key(3);
    let mut ledger = married(a, b, c);
    divorce(&mut ledger, a, b, c).unwrap();
    let before = ledger.lamports(&Address::User(c));
    // a's flag is now false, so b's call closes and refunds c.
    divorce(&mut ledger, b, a, c).unwrap();
    assert!(ledger.read_wedding(&wedding_address(&a, &b)).is_none());
    assert_eq!(ledger.lamports(&Address::User(c)), before + DEPOSIT);
}

#[test]
fn divorce_outside_married_or_divorcing_fails() {
    let a = key(1);
    let b = key(2);
    let c = key(3);
    let mut ledger = engaged(a, b, c);
    assert_eq!(
        divorce(&mut ledger, a, b, c),
        Err(WeddingError::InvalidDivorceStatus)
    );
    give_answer(&mut ledger, a, b, true).unwrap();
    assert_eq!(
        divorce(&mut ledger, a, b, c),
        Err(WeddingError::InvalidDivorceStatus)
    );
}

#[test]
fn divorce_rejects_wrong_refund_target() {
    let a = key(1);
    let b = key(2);
    let c = key(3);
    let mut ledger = married(a, b, c);
    assert_eq!(
        divorce(&mut ledger, a, b, a),
        Err(WeddingError::InvalidCreator)
    );
}

#[test]
fn cancel_by_participant_refunds_creator() {
    let a = key(1);
    let b = key(2);
    let c = key(3);
    let mut ledger = engaged(a, b, c);
    let before = ledger.lamports(&Address::User(c));
    cancel_wedding(&mut ledger, a, c, a, b).unwrap();
    assert!(ledger.read_wedding(&wedding_address(&a, &b)).is_none());
    assert_eq!(ledger.lamports(&Address::User(c)), before + DEPOSIT);
}

#[test]
fn cancel_by_creator_works_in_marrying() {
    let a = key(1);
    let b = key(2);
    let c = key(3);
    let mut ledger = engaged(a, b, c);
    give_answer(&mut ledger, a, b, true).unwrap();
    cancel_wedding(&mut ledger, c, c, a, b).unwrap();
    assert!(ledger.read_wedding(&wedding_address(&a, &b)).is_none());
}

#[test]
fn cancel_by_stranger_fails() {
    let a = key(1);
    let b = key(2);
    let c = key(3);
    let d = key(4);
    let mut ledger = engaged(a, b, c);
    assert_eq!(
        cancel_wedding(&mut ledger, d, c, a, b),
        Err(WeddingError::NotWeddingMember)
    );
    assert!(ledger.read_wedding(&wedding_address(&a, &b)).is_some());
}

#[test]
fn cancel_after_married_fails() {
    let a = key(1);
    let b = key(2);
    let c = key(3);
    let mut ledger = married(a, b, c);
    assert_eq!(
        cancel_wedding(&mut ledger, a, c, a, b),
        Err(WeddingError::CannotCancel)
    );
}

#[test]
fn cancel_rejects_wrong_refund_target() {
    let a = key(1);
    let b = key(2);
    let c = key(3);
    let mut ledger = engaged(a, b, c);
    assert_eq!(
        cancel_wedding(&mut ledger, a, a, a, b),
        Err(WeddingError::InvalidCreator)
    );
}

#[test]
fn close_partner_fails_while_agreement_lives() {
    let a = key(1);
    let b = key(2);
    let c = key(3);
    let mut ledger = engaged(a, b, c);
    assert_eq!(
        close_partner(&mut ledger, a, b),
        Err(WeddingError::WeddingInitialized)
    );
    assert!(check_account_initialized(&ledger, &wedding_address(&a, &b)));
}

#[test]
fn close_partner_rejects_forged_counterpart() {
    let a = key(1);
    let b = key(2);
    let c = key(3);
    let d = key(4);
    let mut ledger = engaged(a, b, c);
    // a's record references the agreement for (a, b); claiming d as the
    // counterpart checks liveness of the wrong address and is refused.
    assert_eq!(
        close_partner(&mut ledger, a, d),
        Err(WeddingError::PartnerWeddingNotWedding)
    );
}

#[test]
fn close_partner_succeeds_once_agreement_is_gone() {
    let a = key(1);
    let b = key(2);
    let c = key(3);
    let mut ledger = engaged(a, b, c);
    cancel_wedding(&mut ledger, a, c, a, b).unwrap();
    let before = ledger.lamports(&Address::User(a));
    close_partner(&mut ledger, a, b).unwrap();
    assert!(ledger.read_partner(&Address::PartnerPda(a)).is_none());
    assert_eq!(ledger.lamports(&Address::User(a)), before + DEPOSIT);
}

#[test]
fn full_lifecycle_returns_all_deposits() {
    let a = key(1);
    let b = key(2);
    let c = key(3);
    let mut ledger = married(a, b, c);
    let wa = wedding_address(&a, &b);
    divorce(&mut ledger, a, b, c).unwrap();
    assert_eq!(ledger.read_wedding(&wa).unwrap().status, Status::Divorcing);
    assert!(!ledger.read_partner(&Address::PartnerPda(a)).unwrap().answer);
    divorce(&mut ledger, b, a, c).unwrap();
    assert!(ledger.read_wedding(&wa).is_none());
    // Both partner records remain closable afterward.
    close_partner(&mut ledger, a, b).unwrap();
    close_partner(&mut ledger, b, a).unwrap();
    assert_eq!(ledger.lamports(&Address::User(a)), 10_000);
    assert_eq!(ledger.lamports(&Address::User(b)), 10_000);
    assert_eq!(ledger.lamports(&Address::User(c)), 10_000);
}

#[test]
fn error_messages_name_each_failure() {
    assert_eq!(
        WeddingError::PartnerDataNotEmpty.message(),
        "partner data not empty"
    );
    assert_eq!(
        WeddingError::PartnerBalanceNotZero.message(),
        "partner lamports not zero"
    );
    assert_eq!(
        WeddingError::NotWeddingMember.message(),
        "signer is not wedding member"
    );
    assert_eq!(
        WeddingError::CannotCancel.message(),
        "cannot cancel after created status"
    );
    assert_eq!(
        WeddingError::InvalidCreator.message(),
        "creator does not match wedding storage"
    );
    assert_eq!(
        WeddingError::WeddingInitialized.message(),
        "partner cannot be closed while wedding is initialized"
    );
    assert_eq!(
        WeddingError::PartnerWeddingNotWedding.message(),
        "partner wedding does not match account wedding"
    );
    assert_eq!(
        WeddingError::InvalidAnswerStatus.message(),
        "cannot answer during invalid status"
    );
    assert_eq!(
        WeddingError::InvalidDivorceStatus.message(),
        "cannot divorce during invalid status"
    );
}
