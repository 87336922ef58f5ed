//! A two-party consent agreement ("wedding") kept as independently addressed
//! records on a host ledger.
//!
//! The library defines the record schema (`state`), the deterministic
//! address-derivation contract (`pda`), the authorization and emptiness
//! checks (`util`), and the six transition operations (`instructions`) that
//! drive the bilateral-consent state machine. The host ledger's account
//! store is modelled in `ledger` as a key-value store with atomic
//! create, update, and close-with-refund, keyed by canonical derived
//! addresses, so that at most one agreement record can exist for any
//! unordered pair of participants.

pub mod errors;
pub mod pubkey;
pub mod state;
pub mod ledger;
pub mod pda;
pub mod instructions;
pub mod util;
