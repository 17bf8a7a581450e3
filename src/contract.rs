//! The stream lifecycle manager: the contract's records and every operation
//! on them. Each operation either succeeds whole or is refused with an
//! `Error` and changes nothing; token movements and events it decides on are
//! appended to outboxes for the host to carry out.

use crate::types::{
    Address, CallContext, Error, Stream, StreamCancelledEvent, StreamClaimedEvent,
    StreamCreatedEvent, StreamEvent, StreamOwnershipRecord, StreamStatus, StreamTransferredEvent,
    TokenTransfer,
};
use crate::vesting::{lemma_vested_bounds, vested_amount};
use vstd::prelude::*;

verus! {

/// The contract's state as a mathematical value. The stream with id `k` is
/// `streams[k - 1]`, and its deed, with ownership id `k`, is `records[k - 1]`.
pub struct LedgerView {
    pub address: Address,
    pub admin: Option<Address>,
    pub streams: Seq<Stream>,
    pub records: Seq<StreamOwnershipRecord>,
    pub transfers: Seq<TokenTransfer>,
    pub events: Seq<StreamEvent>,
}

impl LedgerView {
    pub open spec fn has_stream(self, id: u64) -> bool {
        1 <= id <= self.streams.len()
    }

    pub open spec fn stream(self, id: u64) -> Stream {
        self.streams[id - 1]
    }

    pub open spec fn has_record(self, ownership_id: u64) -> bool {
        1 <= ownership_id <= self.records.len()
    }

    pub open spec fn record(self, ownership_id: u64) -> StreamOwnershipRecord {
        self.records[ownership_id - 1]
    }

    /// The holder of the deed of stream `id`, who may claim and transfer it.
    pub open spec fn owner(self, id: u64) -> Address {
        self.record(self.stream(id).ownership_id).owner
    }

    /// Entry `i` of the store: a well-formed stream with id `i + 1`, linked
    /// both ways to its deed, whose owner is the stream's recipient.
    pub open spec fn entry_valid(self, i: int) -> bool {
        let s = self.streams[i];
        let d = self.records[i];
        &&& s.id == i + 1
        &&& s.ownership_id == i + 1
        &&& s.well_formed()
        &&& d.stream_id == i + 1
        &&& d.owner == s.recipient
    }

    pub open spec fn valid(self) -> bool {
        &&& self.records.len() == self.streams.len()
        &&& forall|i: int| 0 <= i < self.streams.len() ==> #[trigger] self.entry_valid(i)
    }

    /// The store with stream `s` written back under its id.
    pub open spec fn put_stream(self, s: Stream) -> LedgerView {
        LedgerView { streams: self.streams.update(s.id - 1, s), ..self }
    }

    /// `next` can follow `self`: no stream disappears, what is fixed at
    /// creation stays, the amount paid out never decreases, and a canceled
    /// or completed stream never changes again.
    pub open spec fn evolves_to(self, next: LedgerView) -> bool {
        &&& self.streams.len() <= next.streams.len()
        &&& forall|i: int|
            0 <= i < self.streams.len() ==> #[trigger] Self::stream_evolves(
                self.streams[i],
                next.streams[i],
            )
    }

    pub open spec fn stream_evolves(s: Stream, t: Stream) -> bool {
        &&& t.id == s.id
        &&& t.sender == s.sender
        &&& t.token == s.token
        &&& t.total_amount == s.total_amount
        &&& t.start_time == s.start_time
        &&& t.end_time == s.end_time
        &&& t.transferable == s.transferable
        &&& t.ownership_id == s.ownership_id
        &&& s.withdrawn_amount <= t.withdrawn_amount
        &&& (s.status == StreamStatus::Canceled || s.status == StreamStatus::Completed) ==> t == s
    }
}

/// A view with the same streams and deeds as a valid one is valid, and
/// follows from it.
proof fn lemma_same_store(a: LedgerView, b: LedgerView)
    requires
        a.valid(),
        b.streams == a.streams,
        b.records == a.records,
    ensures
        b.valid(),
        a.evolves_to(b),
{
    assert forall|i: int| 0 <= i < b.streams.len() implies #[trigger] b.entry_valid(i) by {
        assert(a.entry_valid(i));
    }
    assert forall|i: int| 0 <= i < a.streams.len() implies #[trigger] LedgerView::stream_evolves(
        a.streams[i],
        b.streams[i],
    ) by {}
}

/// Writing back stream `t` under its id, with its deed set to `d`, keeps a
/// valid view valid, provided `t` is a well-formed successor of the stored
/// stream and `d` still names `t`'s recipient.
proof fn lemma_put_stream(a: LedgerView, t: Stream, d: StreamOwnershipRecord, b: LedgerView)
    requires
        a.valid(),
        a.has_stream(t.id),
        LedgerView::stream_evolves(a.stream(t.id), t),
        t.well_formed(),
        d.stream_id == t.id,
        d.owner == t.recipient,
        b.streams == a.streams.update(t.id - 1, t),
        b.records == a.records.update(t.id - 1, d),
    ensures
        b.valid(),
        a.evolves_to(b),
{
    assert forall|i: int| 0 <= i < b.streams.len() implies #[trigger] b.entry_valid(i) by {
        assert(a.entry_valid(i));
    }
    assert forall|i: int| 0 <= i < a.streams.len() implies #[trigger] LedgerView::stream_evolves(
        a.streams[i],
        b.streams[i],
    ) by {}
}

/// The payment-stream contract: its own address (the escrow holder), its
/// admin, the streams and deeds, and the outboxes of token transfers and
/// events that operations have decided on.
pub struct PaymentStreamContract {
    address: Address,
    admin: Option<Address>,
    streams: Vec<Stream>,
    records: Vec<StreamOwnershipRecord>,
    transfers: Vec<TokenTransfer>,
    events: Vec<StreamEvent>,
}

impl View for PaymentStreamContract {
    type V = LedgerView;

    closed spec fn view(&self) -> LedgerView {
        LedgerView {
            address: self.address,
            admin: self.admin,
            streams: self.streams@,
            records: self.records@,
            transfers: self.transfers@,
            events: self.events@,
        }
    }
}

impl PaymentStreamContract {
    pub open spec fn well_formed(&self) -> bool {
        self@.valid()
    }

    /// The refusal, if any, of `initialize`.
    pub open spec fn initialize_check(v: LedgerView, ctx: CallContext, admin: Address) -> Option<
        Error,
    > {
        if v.admin.is_some() {
            Some(Error::AlreadyInitialized)
        } else if !ctx.authorizes_spec(admin) {
            Some(Error::Unauthorized)
        } else {
            None
        }
    }

    /// The refusal, if any, of `create_stream`.
    pub open spec fn create_check(
        ctx: CallContext,
        sender: Address,
        total_amount: i128,
        start_time: u64,
        end_time: u64,
    ) -> Option<Error> {
        if !ctx.authorizes_spec(sender) {
            Some(Error::Unauthorized)
        } else if total_amount <= 0 {
            Some(Error::InvalidAmount)
        } else if start_time >= end_time {
            Some(Error::InvalidTimeRange)
        } else if start_time < ctx.timestamp {
            Some(Error::InvalidStartTime)
        } else {
            None
        }
    }

    /// The refusal, if any, of `claim`.
    pub open spec fn claim_check(v: LedgerView, ctx: CallContext, id: u64) -> Option<Error> {
        if !v.has_stream(id) {
            Some(Error::StreamNotFound)
        } else if v.stream(id).status != StreamStatus::Active {
            Some(Error::StreamNotActive)
        } else if !ctx.authorizes_spec(v.owner(id)) {
            Some(Error::Unauthorized)
        } else if v.stream(id).claimable_at(ctx.timestamp) <= 0 {
            Some(Error::NoTokensToClaim)
        } else {
            None
        }
    }

    /// The store after `amount` of stream `id` is paid at `now` to `payee`:
    /// the amount is added to what was withdrawn, the stream completes when
    /// that reaches the total, and the payout and its event are queued.
    pub open spec fn after_payout(
        v: LedgerView,
        now: u64,
        id: u64,
        payee: Address,
        amount: int,
    ) -> LedgerView {
        let s = v.stream(id);
        let w = s.withdrawn_amount + amount;
        let t = Stream {
            withdrawn_amount: w as i128,
            status: if w >= s.total_amount {
                StreamStatus::Completed
            } else {
                s.status
            },
            ..s
        };
        LedgerView {
            streams: v.streams.update(id - 1, t),
            transfers: v.transfers.push(
                TokenTransfer { token: s.token, from: v.address, to: payee, amount: amount as i128 },
            ),
            events: v.events.push(
                StreamEvent::Claimed(
                    StreamClaimedEvent {
                        stream_id: id,
                        recipient: payee,
                        amount: amount as i128,
                        timestamp: now,
                    },
                ),
            ),
            ..v
        }
    }

    /// The refusal, if any, of `withdraw`.
    pub open spec fn withdraw_check(v: LedgerView, ctx: CallContext, id: u64, amount: i128) -> Option<
        Error,
    > {
        if !v.has_stream(id) {
            Some(Error::StreamNotFound)
        } else if !ctx.authorizes_spec(v.stream(id).recipient) {
            Some(Error::Unauthorized)
        } else if amount > v.stream(id).withdrawable_at(ctx.timestamp) || amount <= 0 {
            Some(Error::InsufficientWithdrawable)
        } else {
            None
        }
    }

    /// The refusal, if any, of `withdraw_max`.
    pub open spec fn withdraw_max_check(v: LedgerView, ctx: CallContext, id: u64) -> Option<Error> {
        if !v.has_stream(id) {
            Some(Error::StreamNotFound)
        } else if v.stream(id).withdrawable_at(ctx.timestamp) <= 0 {
            Some(Error::InsufficientWithdrawable)
        } else if !ctx.authorizes_spec(v.stream(id).recipient) {
            Some(Error::Unauthorized)
        } else {
            None
        }
    }

    /// The refusal, if any, of `pause_stream`.
    pub open spec fn pause_check(v: LedgerView, ctx: CallContext, id: u64) -> Option<Error> {
        if !v.has_stream(id) {
            Some(Error::StreamNotFound)
        } else if !ctx.authorizes_spec(v.stream(id).sender) {
            Some(Error::Unauthorized)
        } else if v.stream(id).status != StreamStatus::Active {
            Some(Error::StreamNotActive)
        } else {
            None
        }
    }

    /// The refusal, if any, of `resume_stream`.
    pub open spec fn resume_check(v: LedgerView, ctx: CallContext, id: u64) -> Option<Error> {
        if !v.has_stream(id) {
            Some(Error::StreamNotFound)
        } else if !ctx.authorizes_spec(v.stream(id).sender) {
            Some(Error::Unauthorized)
        } else if v.stream(id).status != StreamStatus::Paused {
            Some(Error::StreamNotPaused)
        } else {
            None
        }
    }

    /// The store with the status of stream `id` set to `status`.
    pub open spec fn with_status(v: LedgerView, id: u64, status: StreamStatus) -> LedgerView {
        v.put_stream(Stream { status, ..v.stream(id) })
    }

    /// The refusal, if any, of `cancel_stream`.
    pub open spec fn cancel_check(v: LedgerView, ctx: CallContext, id: u64) -> Option<Error> {
        if !v.has_stream(id) {
            Some(Error::StreamNotFound)
        } else if !ctx.authorizes_spec(v.stream(id).sender) {
            Some(Error::Unauthorized)
        } else if v.stream(id).status != StreamStatus::Active && v.stream(id).status
            != StreamStatus::Paused {
            Some(Error::StreamCannotBeCanceled)
        } else {
            None
        }
    }

    /// The transfers that settle stream `id` when it is canceled at `now`:
    /// the unclaimed unlocked amount to the deed holder, then the rest of the
    /// escrow back to the sender, each only when it is positive.
    pub open spec fn cancel_transfers(v: LedgerView, now: u64, id: u64) -> Seq<TokenTransfer> {
        let s = v.stream(id);
        let paid = s.cancel_payout_at(now);
        let refund = s.cancel_refund_at(now);
        let to_owner = TokenTransfer {
            token: s.token,
            from: v.address,
            to: v.owner(id),
            amount: paid as i128,
        };
        let to_sender = TokenTransfer {
            token: s.token,
            from: v.address,
            to: s.sender,
            amount: refund as i128,
        };
        (if paid > 0 {
            seq![to_owner]
        } else {
            seq![]
        }) + (if refund > 0 {
            seq![to_sender]
        } else {
            seq![]
        })
    }

    /// The store after stream `id` is canceled at `now`.
    pub open spec fn after_cancel(v: LedgerView, now: u64, id: u64) -> LedgerView {
        let s = v.stream(id);
        LedgerView {
            streams: v.streams.update(id - 1, Stream { status: StreamStatus::Canceled, ..s }),
            transfers: v.transfers + Self::cancel_transfers(v, now, id),
            events: v.events.push(
                StreamEvent::Cancelled(
                    StreamCancelledEvent {
                        stream_id: id,
                        sender: s.sender,
                        refund_amount: s.cancel_refund_at(now) as i128,
                        vested_amount: s.cancel_payout_at(now) as i128,
                        timestamp: now,
                    },
                ),
            ),
            ..v
        }
    }

    /// The refusal, if any, of `transfer_stream`.
    pub open spec fn transfer_check(v: LedgerView, ctx: CallContext, id: u64) -> Option<Error> {
        if !v.has_stream(id) {
            Some(Error::StreamNotFound)
        } else if !v.stream(id).transferable {
            Some(Error::StreamNotTransferable)
        } else if v.stream(id).status != StreamStatus::Active {
            Some(Error::StreamNotActive)
        } else if !ctx.authorizes_spec(v.owner(id)) {
            Some(Error::Unauthorized)
        } else {
            None
        }
    }

    /// The store after the deed of stream `id` passes to `to` at `now`.
    pub open spec fn after_transfer(v: LedgerView, now: u64, id: u64, to: Address) -> LedgerView {
        let s = v.stream(id);
        let d = v.record(s.ownership_id);
        LedgerView {
            streams: v.streams.update(id - 1, Stream { recipient: to, ..s }),
            records: v.records.update(s.ownership_id - 1, StreamOwnershipRecord { owner: to, ..d }),
            events: v.events.push(
                StreamEvent::Transferred(
                    StreamTransferredEvent {
                        stream_id: id,
                        ownership_id: s.ownership_id,
                        from: s.recipient,
                        to,
                        timestamp: now,
                    },
                ),
            ),
            ..v
        }
    }

    /// A contract with no admin, no streams and empty outboxes, whose own
    /// address is `address`.
    pub fn new(address: Address) -> (r: PaymentStreamContract)
        ensures
            r.well_formed(),
            r@.address == address,
            r@.admin is None,
            r@.streams.len() == 0,
            r@.records.len() == 0,
            r@.transfers.len() == 0,
            r@.events.len() == 0,
    {
        PaymentStreamContract {
            address,
            admin: None,
            streams: Vec::new(),
            records: Vec::new(),
            transfers: Vec::new(),
            events: Vec::new(),
        }
    }

    /// Rebuilds a contract from the records kept in the durable store, with
    /// empty outboxes; `None` where those records are not consistent.
    pub fn restore(
        address: Address,
        admin: Option<Address>,
        streams: Vec<Stream>,
        records: Vec<StreamOwnershipRecord>,
    ) -> (r: Option<PaymentStreamContract>)
        ensures
            ({
                let v = LedgerView {
                    address,
                    admin,
                    streams: streams@,
                    records: records@,
                    transfers: Seq::empty(),
                    events: Seq::empty(),
                };
                &&& r is Some <==> v.valid()
                &&& r is Some ==> r->0@ == v
            }),
    {
        let ghost v = LedgerView {
            address,
            admin,
            streams: streams@,
            records: records@,
            transfers: Seq::empty(),
            events: Seq::empty(),
        };
        if streams.len() != records.len() {
            return None;
        }
        let mut i: usize = 0;
        while i < streams.len()
            invariant
                v == (LedgerView {
                    address,
                    admin,
                    streams: streams@,
                    records: records@,
                    transfers: Seq::empty(),
                    events: Seq::empty(),
                }),
                streams@.len() == records@.len(),
                i <= streams@.len(),
                forall|j: int| 0 <= j < i ==> #[trigger] v.entry_valid(j),
            decreases streams@.len() - i,
        {
            let s = streams[i];
            let d = records[i];
            let id = i as u64 + 1;
            let consistent = s.id == id && s.ownership_id == id && s.total_amount > 0
                && 0 <= s.withdrawn_amount && s.withdrawn_amount <= s.total_amount
                && s.start_time < s.end_time && (s.status != StreamStatus::Completed
                || s.withdrawn_amount == s.total_amount) && d.stream_id == id && d.owner
                == s.recipient;
            if !consistent {
                proof {
                    assert(!v.entry_valid(i as int));
                    assert(!v.valid()) by {
                        if v.valid() {
                            assert(v.entry_valid(i as int));
                        }
                    }

                }
                return None;
            }
            i += 1;
        }
        Some(
            PaymentStreamContract {
                address,
                admin,
                streams,
                records,
                transfers: Vec::new(),
                events: Vec::new(),
            },
        )
    }

    /// Sets the admin, once, with the admin's authorization.
    pub fn initialize(&mut self, ctx: &CallContext, admin: Address) -> (r: Result<(), Error>)
        requires
            old(self).well_formed(),
        ensures
            final(self).well_formed(),
            old(self)@.evolves_to(final(self)@),
            match Self::initialize_check(old(self)@, *ctx, admin) {
                Some(e) => r == Err::<(), Error>(e) && final(self)@ == old(self)@,
                None => r is Ok && final(self)@ == (LedgerView { admin: Some(admin), ..old(self)@ }),
            },
    {
        if self.admin.is_some() {
            return Err(Error::AlreadyInitialized);
        }
        if !ctx.authorizes(&admin) {
            return Err(Error::Unauthorized);
        }
        self.admin = Some(admin);
        proof {
            lemma_same_store(old(self)@, self@);
        }
        Ok(())
    }

    /// Issues the deed of stream `stream_id` to `recipient`; returns its id.
    fn mint_ownership_record(&mut self, recipient: Address, stream_id: u64, now: u64) -> (r: u64)
        requires
            old(self).records.len() < u64::MAX,
        ensures
            r == old(self).records.len() + 1,
            final(self).records@ == old(self).records@.push(
                StreamOwnershipRecord { stream_id, owner: recipient, minted_at: now },
            ),
            final(self).address == old(self).address,
            final(self).admin == old(self).admin,
            final(self).streams == old(self).streams,
            final(self).transfers == old(self).transfers,
            final(self).events == old(self).events,
    {
        let ownership_id = self.records.len() as u64 + 1;
        self.records.push(StreamOwnershipRecord { stream_id, owner: recipient, minted_at: now });
        ownership_id
    }

    /// Opens a stream of `total_amount` of `token` from `sender` to
    /// `recipient` over `[start_time, end_time)`, escrowing the total from
    /// the sender; returns the new stream's id.
    pub fn create_stream(
        &mut self,
        ctx: &CallContext,
        sender: Address,
        recipient: Address,
        token: Address,
        total_amount: i128,
        start_time: u64,
        end_time: u64,
        transferable: bool,
    ) -> (r: Result<u64, Error>)
        requires
            old(self).well_formed(),
            old(self)@.streams.len() < u64::MAX,
        ensures
            final(self).well_formed(),
            old(self)@.evolves_to(final(self)@),
            match Self::create_check(*ctx, sender, total_amount, start_time, end_time) {
                Some(e) => r == Err::<u64, Error>(e) && final(self)@ == old(self)@,
                None => {
                    let id = (old(self)@.streams.len() + 1) as u64;
                    let s = Stream {
                        id,
                        sender,
                        recipient,
                        token,
                        total_amount,
                        withdrawn_amount: 0,
                        start_time,
                        end_time,
                        status: StreamStatus::Active,
                        transferable,
                        ownership_id: id,
                    };
                    &&& r == Ok::<u64, Error>(id)
                    &&& final(self)@.address == old(self)@.address
                    &&& final(self)@.admin == old(self)@.admin
                    &&& final(self)@.streams == old(self)@.streams.push(s)
                    &&& final(self)@.records == old(self)@.records.push(
                        StreamOwnershipRecord {
                            stream_id: id,
                            owner: recipient,
                            minted_at: ctx.timestamp,
                        },
                    )
                    &&& final(self)@.transfers == old(self)@.transfers.push(
                        TokenTransfer {
                            token,
                            from: sender,
                            to: old(self)@.address,
                            amount: total_amount,
                        },
                    )
                    &&& final(self)@.events == old(self)@.events.push(
                        StreamEvent::Created(
                            StreamCreatedEvent {
                                stream_id: id,
                                sender,
                                recipient,
                                token,
                                total_amount,
                                start_time,
                                end_time,
                                transferable,
                                ownership_id: id,
                            },
                        ),
                    )
                },
            },
    {
        if !ctx.authorizes(&sender) {
            return Err(Error::Unauthorized);
        }
        if total_amount <= 0 {
            return Err(Error::InvalidAmount);
        }
        if start_time >= end_time {
            return Err(Error::InvalidTimeRange);
        }
        if start_time < ctx.timestamp {
            return Err(Error::InvalidStartTime);
        }
        let stream_id = self.streams.len() as u64 + 1;
        let ownership_id = self.mint_ownership_record(recipient, stream_id, ctx.timestamp);
        let stream = Stream {
            id: stream_id,
            sender,
            recipient,
            token,
            total_amount,
            withdrawn_amount: 0,
            start_time,
            end_time,
            status: StreamStatus::Active,
            transferable,
            ownership_id,
        };
        self.streams.push(stream);
        self.transfers.push(
            TokenTransfer { token, from: sender, to: self.address, amount: total_amount },
        );
        self.events.push(
            StreamEvent::Created(
                StreamCreatedEvent {
                    stream_id,
                    sender,
                    recipient,
                    token,
                    total_amount,
                    start_time,
                    end_time,
                    transferable,
                    ownership_id,
                },
            ),
        );
        proof {
            let (v0, v1) = (old(self)@, self@);
            assert forall|i: int| 0 <= i < v1.streams.len() implies #[trigger] v1.entry_valid(i) by {
                if i < v0.streams.len() {
                    assert(v0.entry_valid(i));
                }
            }
            assert forall|i: int| 0 <= i < v0.streams.len() implies
                #[trigger] LedgerView::stream_evolves(v0.streams[i], v1.streams[i]) by {}
        }
        Ok(stream_id)
    }

    /// The stream stored under `stream_id`, if any.
    fn load_stream(&self, stream_id: u64) -> (r: Option<Stream>)
        requires
            self.well_formed(),
        ensures
            r == if self@.has_stream(stream_id) {
                Some(self@.stream(stream_id))
            } else {
                None::<Stream>
            },
            r is Some ==> r->0.id == stream_id && r->0.ownership_id == stream_id
                && r->0.well_formed(),
    {
        if stream_id == 0 || stream_id > self.streams.len() as u64 {
            return None;
        }
        let stream = self.streams[(stream_id - 1) as usize];
        proof {
            assert(self@.entry_valid(stream_id - 1));
        }
        Some(stream)
    }

    /// The position of the stored stream `stream_id`, and of its deed.
    fn slot(&self, stream_id: u64) -> (r: usize)
        requires
            self.well_formed(),
            self@.has_stream(stream_id),
        ensures
            r == stream_id - 1,
            r < self@.streams.len(),
            r < self@.records.len(),
    {
        // Reading the length bounds it by usize::MAX, which the cast needs.
        let _len: usize = self.streams.len();
        (stream_id - 1) as usize
    }

    /// The holder of the deed of the stored stream `stream_id`.
    fn deed_owner(&self, stream_id: u64) -> (r: Address)
        requires
            self.well_formed(),
            self@.has_stream(stream_id),
        ensures
            r == self@.owner(stream_id),
            r == self@.stream(stream_id).recipient,
    {
        proof {
            assert(self@.entry_valid(stream_id - 1));
        }
        let idx = self.slot(stream_id);
        self.records[idx].owner
    }

    /// The amount of `stream` unlocked at `current_time`.
    pub fn calculate_vested(stream: &Stream, current_time: u64) -> (r: i128)
        requires
            stream.well_formed(),
        ensures
            r == stream.vested_at(current_time),
            0 <= r <= stream.total_amount,
    {
        vested_amount(stream.total_amount, stream.start_time, stream.end_time, current_time)
    }

    /// The amount of `stream` unlocked at `current_time` and not yet paid out.
    pub fn calculate_claimable(stream: &Stream, current_time: u64) -> (r: i128)
        requires
            stream.well_formed(),
        ensures
            r == stream.claimable_at(current_time),
    {
        let vested = Self::calculate_vested(stream, current_time);
        vested - stream.withdrawn_amount
    }

    fn stream_withdrawable(stream: &Stream, current_time: u64) -> (r: i128)
        requires
            stream.well_formed(),
        ensures
            r == stream.withdrawable_at(current_time),
    {
        if stream.status != StreamStatus::Active {
            0
        } else {
            Self::calculate_claimable(stream, current_time)
        }
    }

    /// Pays `amount` of the active stream `stream_id` to `payee` at `now`.
    fn pay_out(&mut self, now: u64, stream_id: u64, payee: Address, amount: i128)
        requires
            old(self).well_formed(),
            old(self)@.has_stream(stream_id),
            old(self)@.stream(stream_id).status == StreamStatus::Active,
            0 < amount,
            old(self)@.stream(stream_id).withdrawn_amount + amount <= old(self)@.stream(
                stream_id,
            ).total_amount,
        ensures
            final(self).well_formed(),
            old(self)@.evolves_to(final(self)@),
            final(self)@ == Self::after_payout(old(self)@, now, stream_id, payee, amount as int),
    {
        let idx = self.slot(stream_id);
        proof {
            assert(old(self)@.entry_valid(idx as int));
        }
        let mut stream = self.streams[idx];
        stream.withdrawn_amount = stream.withdrawn_amount + amount;
        if stream.withdrawn_amount >= stream.total_amount {
            stream.status = StreamStatus::Completed;
        }
        self.streams[idx] = stream;
        self.transfers.push(
            TokenTransfer { token: stream.token, from: self.address, to: payee, amount },
        );
        self.events.push(
            StreamEvent::Claimed(
                StreamClaimedEvent { stream_id, recipient: payee, amount, timestamp: now },
            ),
        );
        proof {
            let a = old(self)@;
            assert(self@.records =~= a.records.update(idx as int, a.records[idx as int]));
            lemma_put_stream(a, stream, a.records[idx as int], self@);
        }
    }

    /// Pays the deed holder of stream `stream_id` everything unlocked and not
    /// yet paid out; returns that amount.
    pub fn claim(&mut self, ctx: &CallContext, stream_id: u64) -> (r: Result<i128, Error>)
        requires
            old(self).well_formed(),
        ensures
            final(self).well_formed(),
            old(self)@.evolves_to(final(self)@),
            match Self::claim_check(old(self)@, *ctx, stream_id) {
                Some(e) => r == Err::<i128, Error>(e) && final(self)@ == old(self)@,
                None => {
                    let c = old(self)@.stream(stream_id).claimable_at(ctx.timestamp);
                    &&& r == Ok::<i128, Error>(c as i128)
                    &&& final(self)@ == Self::after_payout(
                        old(self)@,
                        ctx.timestamp,
                        stream_id,
                        old(self)@.owner(stream_id),
                        c,
                    )
                },
            },
    {
        let stream = match self.load_stream(stream_id) {
            Some(s) => s,
            None => return Err(Error::StreamNotFound),
        };
        if stream.status != StreamStatus::Active {
            return Err(Error::StreamNotActive);
        }
        let owner = self.deed_owner(stream_id);
        if !ctx.authorizes(&owner) {
            return Err(Error::Unauthorized);
        }
        let now = ctx.timestamp;
        let claimable = Self::calculate_claimable(&stream, now);
        if claimable <= 0 {
            return Err(Error::NoTokensToClaim);
        }
        proof {
            lemma_vested_bounds(
                stream.total_amount as int,
                stream.start_time as int,
                stream.end_time as int,
                now as int,
            );
        }
        self.pay_out(now, stream_id, owner, claimable);
        Ok(claimable)
    }

    /// The amount that may be withdrawn from stream `stream_id` now: what is
    /// claimable if the stream is active, else nothing.
    pub fn withdrawable_amount(&self, ctx: &CallContext, stream_id: u64) -> (r: Result<i128, Error>)
        requires
            self.well_formed(),
        ensures
            r == if self@.has_stream(stream_id) {
                Ok::<i128, Error>(self@.stream(stream_id).withdrawable_at(ctx.timestamp) as i128)
            } else {
                Err::<i128, Error>(Error::StreamNotFound)
            },
    {
        match self.load_stream(stream_id) {
            Some(stream) => Ok(Self::stream_withdrawable(&stream, ctx.timestamp)),
            None => Err(Error::StreamNotFound),
        }
    }

    /// The same amount as `withdrawable_amount`, under the deed's vocabulary.
    pub fn get_claimable(&self, ctx: &CallContext, stream_id: u64) -> (r: Result<i128, Error>)
        requires
            self.well_formed(),
        ensures
            r == if self@.has_stream(stream_id) {
                Ok::<i128, Error>(self@.stream(stream_id).withdrawable_at(ctx.timestamp) as i128)
            } else {
                Err::<i128, Error>(Error::StreamNotFound)
            },
    {
        self.withdrawable_amount(ctx, stream_id)
    }

    /// Pays `amount` of stream `stream_id` to its recipient, who must have
    /// authorized the call; the amount must be positive and at most what is
    /// withdrawable.
    pub fn withdraw(&mut self, ctx: &CallContext, stream_id: u64, amount: i128) -> (r: Result<
        (),
        Error,
    >)
        requires
            old(self).well_formed(),
        ensures
            final(self).well_formed(),
            old(self)@.evolves_to(final(self)@),
            match Self::withdraw_check(old(self)@, *ctx, stream_id, amount) {
                Some(e) => r == Err::<(), Error>(e) && final(self)@ == old(self)@,
                None => r is Ok && final(self)@ == Self::after_payout(
                    old(self)@,
                    ctx.timestamp,
                    stream_id,
                    old(self)@.stream(stream_id).recipient,
                    amount as int,
                ),
            },
    {
        let stream = match self.load_stream(stream_id) {
            Some(s) => s,
            None => return Err(Error::StreamNotFound),
        };
        if !ctx.authorizes(&stream.recipient) {
            return Err(Error::Unauthorized);
        }
        let available = Self::stream_withdrawable(&stream, ctx.timestamp);
        if amount > available || amount <= 0 {
            return Err(Error::InsufficientWithdrawable);
        }
        proof {
            lemma_vested_bounds(
                stream.total_amount as int,
                stream.start_time as int,
                stream.end_time as int,
                ctx.timestamp as int,
            );
        }
        self.pay_out(ctx.timestamp, stream_id, stream.recipient, amount);
        Ok(())
    }

    /// Withdraws everything withdrawable from stream `stream_id`.
    pub fn withdraw_max(&mut self, ctx: &CallContext, stream_id: u64) -> (r: Result<(), Error>)
        requires
            old(self).well_formed(),
        ensures
            final(self).well_formed(),
            old(self)@.evolves_to(final(self)@),
            match Self::withdraw_max_check(old(self)@, *ctx, stream_id) {
                Some(e) => r == Err::<(), Error>(e) && final(self)@ == old(self)@,
                None => r is Ok && final(self)@ == Self::after_payout(
                    old(self)@,
                    ctx.timestamp,
                    stream_id,
                    old(self)@.stream(stream_id).recipient,
                    old(self)@.stream(stream_id).withdrawable_at(ctx.timestamp),
                ),
            },
    {
        let available = match self.withdrawable_amount(ctx, stream_id) {
            Ok(a) => a,
            Err(e) => return Err(e),
        };
        proof {
            let s = self@.stream(stream_id);
            assert(self@.entry_valid(stream_id - 1));
            lemma_vested_bounds(
                s.total_amount as int,
                s.start_time as int,
                s.end_time as int,
                ctx.timestamp as int,
            );
        }
        if available <= 0 {
            return Err(Error::InsufficientWithdrawable);
        }
        self.withdraw(ctx, stream_id, available)
    }

    /// Suspends the active stream `stream_id`, with its sender's authorization.
    pub fn pause_stream(&mut self, ctx: &CallContext, stream_id: u64) -> (r: Result<(), Error>)
        requires
            old(self).well_formed(),
        ensures
            final(self).well_formed(),
            old(self)@.evolves_to(final(self)@),
            match Self::pause_check(old(self)@, *ctx, stream_id) {
                Some(e) => r == Err::<(), Error>(e) && final(self)@ == old(self)@,
                None => r is Ok && final(self)@ == Self::with_status(
                    old(self)@,
                    stream_id,
                    StreamStatus::Paused,
                ),
            },
    {
        let mut stream = match self.load_stream(stream_id) {
            Some(s) => s,
            None => return Err(Error::StreamNotFound),
        };
        if !ctx.authorizes(&stream.sender) {
            return Err(Error::Unauthorized);
        }
        if stream.status != StreamStatus::Active {
            return Err(Error::StreamNotActive);
        }
        stream.status = StreamStatus::Paused;
        self.store_status(stream);
        Ok(())
    }

    /// Reactivates the paused stream `stream_id`, with its sender's
    /// authorization.
    pub fn resume_stream(&mut self, ctx: &CallContext, stream_id: u64) -> (r: Result<(), Error>)
        requires
            old(self).well_formed(),
        ensures
            final(self).well_formed(),
            old(self)@.evolves_to(final(self)@),
            match Self::resume_check(old(self)@, *ctx, stream_id) {
                Some(e) => r == Err::<(), Error>(e) && final(self)@ == old(self)@,
                None => r is Ok && final(self)@ == Self::with_status(
                    old(self)@,
                    stream_id,
                    StreamStatus::Active,
                ),
            },
    {
        let mut stream = match self.load_stream(stream_id) {
            Some(s) => s,
            None => return Err(Error::StreamNotFound),
        };
        if !ctx.authorizes(&stream.sender) {
            return Err(Error::Unauthorized);
        }
        if stream.status != StreamStatus::Paused {
            return Err(Error::StreamNotPaused);
        }
        stream.status = StreamStatus::Active;
        self.store_status(stream);
        Ok(())
    }

    /// Writes back `stream`, which differs from the stored one in its status
    /// alone, moving between active and paused.
    fn store_status(&mut self, stream: Stream)
        requires
            old(self).well_formed(),
            old(self)@.has_stream(stream.id),
            stream == (Stream { status: stream.status, ..old(self)@.stream(stream.id) }),
            stream.status == StreamStatus::Active || stream.status == StreamStatus::Paused,
            old(self)@.stream(stream.id).status == StreamStatus::Active || old(self)@.stream(
                stream.id,
            ).status == StreamStatus::Paused,
        ensures
            final(self).well_formed(),
            old(self)@.evolves_to(final(self)@),
            final(self)@ == old(self)@.put_stream(stream),
    {
        let idx = self.slot(stream.id);
        proof {
            assert(old(self)@.entry_valid(idx as int));
        }
        self.streams[idx] = stream;
        proof {
            let a = old(self)@;
            assert(self@.records =~= a.records.update(idx as int, a.records[idx as int]));
            lemma_put_stream(a, stream, a.records[idx as int], self@);
        }
    }

    /// Ends stream `stream_id`, with its sender's authorization: the deed
    /// holder is paid what is unlocked and unclaimed, the sender gets the
    /// rest of the escrow back, and the stream is canceled for good.
    pub fn cancel_stream(&mut self, ctx: &CallContext, stream_id: u64) -> (r: Result<(), Error>)
        requires
            old(self).well_formed(),
        ensures
            final(self).well_formed(),
            old(self)@.evolves_to(final(self)@),
            match Self::cancel_check(old(self)@, *ctx, stream_id) {
                Some(e) => r == Err::<(), Error>(e) && final(self)@ == old(self)@,
                None => r is Ok && final(self)@ == Self::after_cancel(
                    old(self)@,
                    ctx.timestamp,
                    stream_id,
                ),
            },
    {
        let mut stream = match self.load_stream(stream_id) {
            Some(s) => s,
            None => return Err(Error::StreamNotFound),
        };
        if !ctx.authorizes(&stream.sender) {
            return Err(Error::Unauthorized);
        }
        if stream.status != StreamStatus::Active && stream.status != StreamStatus::Paused {
            return Err(Error::StreamCannotBeCanceled);
        }
        let owner = self.deed_owner(stream_id);
        let now = ctx.timestamp;
        let vested = Self::calculate_vested(&stream, now);
        let paid: i128 = if vested > stream.withdrawn_amount {
            vested - stream.withdrawn_amount
        } else {
            0
        };
        let refund: i128 = stream.total_amount - stream.withdrawn_amount - paid;
        stream.status = StreamStatus::Canceled;
        let idx = self.slot(stream_id);
        self.streams[idx] = stream;
        let ghost before = self.transfers@;
        if paid > 0 {
            self.transfers.push(
                TokenTransfer { token: stream.token, from: self.address, to: owner, amount: paid },
            );
        }
        if refund > 0 {
            self.transfers.push(
                TokenTransfer {
                    token: stream.token,
                    from: self.address,
                    to: stream.sender,
                    amount: refund,
                },
            );
        }
        self.events.push(
            StreamEvent::Cancelled(
                StreamCancelledEvent {
                    stream_id,
                    sender: stream.sender,
                    refund_amount: refund,
                    vested_amount: paid,
                    timestamp: now,
                },
            ),
        );
        proof {
            let a = old(self)@;
            assert(self@.transfers =~= a.transfers + Self::cancel_transfers(a, now, stream_id));
            assert(self@.records =~= a.records.update(idx as int, a.records[idx as int]));
            assert(a.entry_valid(idx as int));
            lemma_put_stream(a, stream, a.records[idx as int], self@);
        }
        Ok(())
    }

    /// Hands the deed of stream `stream_id` to `new_recipient`, with the
    /// current holder's authorization; only a transferable, active stream
    /// can change hands.
    pub fn transfer_stream(&mut self, ctx: &CallContext, stream_id: u64, new_recipient: Address) -> (r:
        Result<(), Error>)
        requires
            old(self).well_formed(),
        ensures
            final(self).well_formed(),
            old(self)@.evolves_to(final(self)@),
            match Self::transfer_check(old(self)@, *ctx, stream_id) {
                Some(e) => r == Err::<(), Error>(e) && final(self)@ == old(self)@,
                None => r is Ok && final(self)@ == Self::after_transfer(
                    old(self)@,
                    ctx.timestamp,
                    stream_id,
                    new_recipient,
                ),
            },
    {
        let mut stream = match self.load_stream(stream_id) {
            Some(s) => s,
            None => return Err(Error::StreamNotFound),
        };
        if !stream.transferable {
            return Err(Error::StreamNotTransferable);
        }
        if stream.status != StreamStatus::Active {
            return Err(Error::StreamNotActive);
        }
        let idx = self.slot(stream_id);
        proof {
            assert(old(self)@.entry_valid(idx as int));
        }
        let mut record = self.records[idx];
        if !ctx.authorizes(&record.owner) {
            return Err(Error::Unauthorized);
        }
        let from = stream.recipient;
        stream.recipient = new_recipient;
        self.streams[idx] = stream;
        record.owner = new_recipient;
        self.records[idx] = record;
        self.events.push(
            StreamEvent::Transferred(
                StreamTransferredEvent {
                    stream_id,
                    ownership_id: stream.ownership_id,
                    from,
                    to: new_recipient,
                    timestamp: ctx.timestamp,
                },
            ),
        );
        proof {
            let a = old(self)@;
            assert(a.entry_valid(stream_id - 1));
            lemma_put_stream(a, stream, record, self@);
        }
        Ok(())
    }

    /// The stream stored under `stream_id`.
    pub fn get_stream(&self, stream_id: u64) -> (r: Result<Stream, Error>)
        requires
            self.well_formed(),
        ensures
            r == if self@.has_stream(stream_id) {
                Ok::<Stream, Error>(self@.stream(stream_id))
            } else {
                Err::<Stream, Error>(Error::StreamNotFound)
            },
    {
        match self.load_stream(stream_id) {
            Some(s) => Ok(s),
            None => Err(Error::StreamNotFound),
        }
    }

    /// The deed stored under `ownership_id`.
    pub fn get_ownership_record(&self, ownership_id: u64) -> (r: Result<
        StreamOwnershipRecord,
        Error,
    >)
        ensures
            r == if self@.has_record(ownership_id) {
                Ok::<StreamOwnershipRecord, Error>(self@.record(ownership_id))
            } else {
                Err::<StreamOwnershipRecord, Error>(Error::OwnershipRecordNotFound)
            },
    {
        if ownership_id == 0 || ownership_id > self.records.len() as u64 {
            return Err(Error::OwnershipRecordNotFound);
        }
        Ok(self.records[(ownership_id - 1) as usize])
    }

    /// The holder of the deed stored under `ownership_id`.
    pub fn ownership_record_owner(&self, ownership_id: u64) -> (r: Result<Address, Error>)
        ensures
            r == if self@.has_record(ownership_id) {
                Ok::<Address, Error>(self@.record(ownership_id).owner)
            } else {
                Err::<Address, Error>(Error::OwnershipRecordNotFound)
            },
    {
        match self.get_ownership_record(ownership_id) {
            Ok(record) => Ok(record.owner),
            Err(e) => Err(e),
        }
    }

    /// The contract's own address, which holds the escrow.
    pub fn address(&self) -> (r: Address)
        ensures
            r == self@.address,
    {
        self.address
    }

    pub fn admin(&self) -> (r: Option<Address>)
        ensures
            r == self@.admin,
    {
        self.admin
    }

    /// How many streams were ever created; the last one has this id.
    pub fn stream_count(&self) -> (r: u64)
        requires
            self.well_formed(),
        ensures
            r == self@.streams.len(),
    {
        proof {
            if self@.streams.len() > 0 {
                assert(self@.entry_valid(self@.streams.len() - 1));
            }
        }
        self.streams.len() as u64
    }

    /// The token transfers decided so far, oldest first.
    pub fn transfers(&self) -> (r: &Vec<TokenTransfer>)
        ensures
            r@ == self@.transfers,
    {
        &self.transfers
    }

    /// The events announced so far, oldest first.
    pub fn events(&self) -> (r: &Vec<StreamEvent>)
        ensures
            r@ == self@.events,
    {
        &self.events
    }
}

} // verus!
