//! A payment-streaming ledger: funds escrowed by a sender are released to a
//! recipient linearly over a time window, with pause, resume, cancellation
//! and a transferable claim deed.

mod contract;
mod distributor;
mod laws;
mod types;
mod vesting;

pub use contract::{LedgerView, PaymentStreamContract};
pub use distributor::DistributorContract;
pub use laws::{
    amount_moved, lemma_cancel_conserves, lemma_evolves_reflexive, lemma_evolves_transitive,
    lemma_illegal_transitions, lemma_payout_accounts, lemma_transfer_gated,
    lemma_unauthorized_refused,
};
pub use types::{
    Address, CallContext, DataKey, Error, Stream, StreamCancelledEvent, StreamClaimedEvent,
    StreamCreatedEvent, StreamEvent, StreamOwnershipRecord, StreamStatus, StreamTransferredEvent,
    TokenTransfer, STRKEY_LEN,
};
pub use vesting::{lemma_vested_bounds, vested_amount, vested_spec};
