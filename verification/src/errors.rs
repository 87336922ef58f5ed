//! The named failures of the transition operations.

use vstd::prelude::*;

verus! {

/// Every operation either fully applies or fails with one of these errors
/// and leaves the ledger unchanged.
#[derive(Clone, Copy, Debug, PartialEq, Eq, Structural)]
pub enum WeddingError {
    /// A participant slot is already occupied: the derived partner record
    /// address holds stored data.
    PartnerDataNotEmpty,
    /// A participant slot is already occupied: the derived partner record
    /// address holds a nonzero balance.
    PartnerBalanceNotZero,
    /// The signer is neither of the two recorded participants nor the
    /// creator of the agreement.
    NotWeddingMember,
    /// Cancellation was asked for after the agreement left the Created or
    /// Marrying status.
    CannotCancel,
    /// The supplied refund target does not match the creator recorded in
    /// the agreement.
    InvalidCreator,
    /// A partner record cannot be reclaimed while the agreement record
    /// derived for the pair still carries data or funds.
    WeddingInitialized,
    /// A partner record does not reference the agreement record it was
    /// loaded together with.
    PartnerWeddingNotWedding,
    /// Consent cannot be recorded in the current status.
    InvalidAnswerStatus,
    /// Divorce cannot proceed in the current status.
    InvalidDivorceStatus,
}

impl WeddingError {
    /// The wording of each error, as shown to a caller.
    pub open spec fn message_spec(&self) -> Seq<char> {
        match self {
            WeddingError::PartnerDataNotEmpty => "partner data not empty"@,
            WeddingError::PartnerBalanceNotZero => "partner lamports not zero"@,
            WeddingError::NotWeddingMember => "signer is not wedding member"@,
            WeddingError::CannotCancel => "cannot cancel after created status"@,
            WeddingError::InvalidCreator => "creator does not match wedding storage"@,
            WeddingError::WeddingInitialized => "partner cannot be closed while wedding is initialized"@,
            WeddingError::PartnerWeddingNotWedding => "partner wedding does not match account wedding"@,
            WeddingError::InvalidAnswerStatus => "cannot answer during invalid status"@,
            WeddingError::InvalidDivorceStatus => "cannot divorce during invalid status"@,
        }
    }

    /// Renders the error's message.
    pub fn message(&self) -> (r: String)
        ensures
            r@ == self.message_spec(),
    {
        match self {
            WeddingError::PartnerDataNotEmpty => "partner data not empty".to_owned(),
            WeddingError::PartnerBalanceNotZero => "partner lamports not zero".to_owned(),
            WeddingError::NotWeddingMember => "signer is not wedding member".to_owned(),
            WeddingError::CannotCancel => "cannot cancel after created status".to_owned(),
            WeddingError::InvalidCreator => "creator does not match wedding storage".to_owned(),
            WeddingError::WeddingInitialized => "partner cannot be closed while wedding is initialized".to_owned(),
            WeddingError::PartnerWeddingNotWedding => "partner wedding does not match account wedding".to_owned(),
            WeddingError::InvalidAnswerStatus => "cannot answer during invalid status".to_owned(),
            WeddingError::InvalidDivorceStatus => "cannot divorce during invalid status".to_owned(),
        }
    }
}

} // verus!
