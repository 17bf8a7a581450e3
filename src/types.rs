//! The data of the ledger: parties, streams, deeds, errors, and what an
//! operation hands to the outside world (token transfers and events).

use crate::vesting::vested_spec;
use vstd::prelude::*;

verus! {

/// The length of a strkey, the text form of a party's address.
pub const STRKEY_LEN: usize = 56;

/// A party of the ledger, an account or a contract, held as its strkey text.
#[derive(Clone, Copy, Debug, Eq)]
pub struct Address {
    pub strkey: [u8; 56],
}

impl Address {
    /// The party whose strkey is `strkey`.
    pub fn new(strkey: [u8; 56]) -> (r: Address)
        ensures
            r.strkey == strkey,
    {
        Address { strkey }
    }
}

impl PartialEq for Address {
    fn eq(&self, other: &Address) -> (r: bool) {
        let mut i: usize = 0;
        while i < STRKEY_LEN
            invariant
                i <= STRKEY_LEN,
                self.strkey@.len() == STRKEY_LEN,
                other.strkey@.len() == STRKEY_LEN,
                forall|j: int| 0 <= j < i ==> self.strkey@[j] == other.strkey@[j],
            decreases STRKEY_LEN - i,
        {
            if self.strkey[i] != other.strkey[i] {
                return false;
            }
            i += 1;
        }
        proof {
            vstd::array::axiom_array_ext_equal(self.strkey, other.strkey);
            assert(self.strkey =~= other.strkey);
        }
        true
    }
}

impl vstd::std_specs::cmp::PartialEqSpecImpl for Address {
    open spec fn obeys_eq_spec() -> bool {
        true
    }

    open spec fn eq_spec(&self, other: &Address) -> bool {
        *self == *other
    }
}

/// Where a stream stands in its lifecycle.
#[derive(Clone, Copy, Debug, PartialEq, Eq, Structural)]
pub enum StreamStatus {
    Active,
    Paused,
    Canceled,
    Completed,
}

/// Why an operation was refused. A refused operation changes nothing.
#[derive(Clone, Copy, Debug, PartialEq, Eq, Structural)]
pub enum Error {
    AlreadyInitialized,
    NotInitialized,
    Unauthorized,
    InvalidAmount,
    InvalidTimeRange,
    InvalidStartTime,
    StreamNotFound,
    StreamNotActive,
    StreamNotPaused,
    StreamCannotBeCanceled,
    StreamNotTransferable,
    OwnershipRecordNotFound,
    NoTokensToClaim,
    InsufficientWithdrawable,
    TransferFailed,
}

/// A payment stream: `total_amount` of `token`, escrowed from `sender`,
/// released to `recipient` linearly from `start_time` to `end_time`.
#[derive(Clone, Copy, Debug, PartialEq, Eq)]
pub struct Stream {
    pub id: u64,
    pub sender: Address,
    pub recipient: Address,
    pub token: Address,
    pub total_amount: i128,
    pub withdrawn_amount: i128,
    pub start_time: u64,
    pub end_time: u64,
    pub status: StreamStatus,
    pub transferable: bool,
    pub ownership_id: u64,
}

impl Stream {
    /// What every stored stream satisfies.
    pub open spec fn well_formed(self) -> bool {
        &&& self.total_amount > 0
        &&& 0 <= self.withdrawn_amount <= self.total_amount
        &&& self.start_time < self.end_time
        &&& self.status == StreamStatus::Completed ==> self.withdrawn_amount == self.total_amount
    }

    /// The amount unlocked at time `now`.
    pub open spec fn vested_at(self, now: u64) -> int {
        vested_spec(
            self.total_amount as int,
            self.start_time as int,
            self.end_time as int,
            now as int,
        )
    }

    /// The amount unlocked at `now` and not yet paid out.
    pub open spec fn claimable_at(self, now: u64) -> int {
        self.vested_at(now) - self.withdrawn_amount
    }

    /// What may be withdrawn at `now`: the claimable amount of an active
    /// stream, and nothing for a stream in any other state.
    pub open spec fn withdrawable_at(self, now: u64) -> int {
        if self.status == StreamStatus::Active {
            self.claimable_at(now)
        } else {
            0
        }
    }

    /// What the deed holder is paid when the stream is canceled at `now`:
    /// the unlocked amount not yet paid out, if any.
    pub open spec fn cancel_payout_at(self, now: u64) -> int {
        if self.vested_at(now) > self.withdrawn_amount {
            self.vested_at(now) - self.withdrawn_amount
        } else {
            0
        }
    }

    /// What the sender gets back when the stream is canceled at `now`:
    /// everything still in escrow once the deed holder is paid.
    pub open spec fn cancel_refund_at(self, now: u64) -> int {
        self.total_amount - self.withdrawn_amount - self.cancel_payout_at(now)
    }
}

/// The deed that says who may claim a stream's payouts.
#[derive(Clone, Copy, Debug, PartialEq, Eq)]
pub struct StreamOwnershipRecord {
    pub stream_id: u64,
    pub owner: Address,
    pub minted_at: u64,
}

/// The keys of the durable record store, one kind per entity.
#[derive(Clone, Copy, Debug, PartialEq, Eq, Structural)]
pub enum DataKey {
    StreamCounter,
    OwnershipCounter,
    Stream(u64),
    StreamOwnershipRecord(u64),
    OwnershipToStream(u64),
    Admin,
}

/// A movement of `amount` units of `token` from one party to another, to be
/// carried out by the token contract.
#[derive(Clone, Copy, Debug, PartialEq, Eq)]
pub struct TokenTransfer {
    pub token: Address,
    pub from: Address,
    pub to: Address,
    pub amount: i128,
}

#[derive(Clone, Copy, Debug, PartialEq, Eq)]
pub struct StreamCreatedEvent {
    pub stream_id: u64,
    pub sender: Address,
    pub recipient: Address,
    pub token: Address,
    pub total_amount: i128,
    pub start_time: u64,
    pub end_time: u64,
    pub transferable: bool,
    pub ownership_id: u64,
}

#[derive(Clone, Copy, Debug, PartialEq, Eq)]
pub struct StreamTransferredEvent {
    pub stream_id: u64,
    pub ownership_id: u64,
    pub from: Address,
    pub to: Address,
    pub timestamp: u64,
}

#[derive(Clone, Copy, Debug, PartialEq, Eq)]
pub struct StreamClaimedEvent {
    pub stream_id: u64,
    pub recipient: Address,
    pub amount: i128,
    pub timestamp: u64,
}

/// `vested_amount` is what the deed holder was paid at cancellation.
#[derive(Clone, Copy, Debug, PartialEq, Eq)]
pub struct StreamCancelledEvent {
    pub stream_id: u64,
    pub sender: Address,
    pub refund_amount: i128,
    pub vested_amount: i128,
    pub timestamp: u64,
}

/// What an operation announces to outside observers.
#[derive(Clone, Copy, Debug, PartialEq, Eq)]
pub enum StreamEvent {
    Created(StreamCreatedEvent),
    Transferred(StreamTransferredEvent),
    Claimed(StreamClaimedEvent),
    Cancelled(StreamCancelledEvent),
}

/// What the host tells an operation: the current time, read once, and the
/// parties that produced a valid authorization proof for this call.
pub struct CallContext {
    pub timestamp: u64,
    pub authorized: Vec<Address>,
}

impl CallContext {
    pub fn new(timestamp: u64, authorized: Vec<Address>) -> (r: CallContext)
        ensures
            r.timestamp == timestamp,
            r.authorized@ == authorized@,
    {
        CallContext { timestamp, authorized }
    }

    /// Whether `who` proved its authorization for this call.
    pub open spec fn authorizes_spec(&self, who: Address) -> bool {
        self.authorized@.contains(who)
    }

    pub fn authorizes(&self, who: &Address) -> (r: bool)
        ensures
            r == self.authorizes_spec(*who),
    {
        let mut i: usize = 0;
        while i < self.authorized.len()
            invariant
                i <= self.authorized@.len(),
                forall|j: int| 0 <= j < i ==> self.authorized@[j] != *who,
            decreases self.authorized@.len() - i,
        {
            if self.authorized[i] == *who {
                return true;
            }
            i += 1;
        }
        false
    }
}

} // verus!
