//! Properties that hold across operations, stated over the contracts of the
//! lifecycle operations and proved from them.

use crate::contract::{LedgerView, PaymentStreamContract};
use crate::types::{Address, CallContext, Error, StreamStatus, TokenTransfer};
use crate::vesting::lemma_vested_bounds;
use vstd::prelude::*;

verus! {

/// The sum of the amounts of `transfers`.
pub open spec fn amount_moved(transfers: Seq<TokenTransfer>) -> int
    decreases transfers.len(),
{
    if transfers.len() == 0 {
        0
    } else {
        amount_moved(transfers.drop_last()) + transfers.last().amount
    }
}

/// Canceling a stream settles its escrow exactly. Every transfer it makes
/// leaves the contract with a positive amount, and what was withdrawn before,
/// plus everything these transfers move, is the stream's total. Where time
/// has not gone back since the last payout, the deed holder gets the
/// unlocked amount not yet withdrawn and the sender gets the part not yet
/// unlocked.
pub proof fn lemma_cancel_conserves(v: LedgerView, now: u64, id: u64)
    requires
        v.valid(),
        v.has_stream(id),
    ensures
        ({
            let s = v.stream(id);
            let moved = PaymentStreamContract::cancel_transfers(v, now, id);
            &&& s.withdrawn_amount + amount_moved(moved) == s.total_amount
            &&& forall|k: int|
                0 <= k < moved.len() ==> #[trigger] moved[k].amount > 0 && moved[k].from
                    == v.address && moved[k].token == s.token
            &&& s.vested_at(now) >= s.withdrawn_amount ==> {
                &&& s.cancel_payout_at(now) == s.vested_at(now) - s.withdrawn_amount
                &&& s.cancel_refund_at(now) == s.total_amount - s.vested_at(now)
            }
        }),
{
    let s = v.stream(id);
    assert(v.entry_valid(id - 1));
    lemma_vested_bounds(s.total_amount as int, s.start_time as int, s.end_time as int, now as int);
    let moved = PaymentStreamContract::cancel_transfers(v, now, id);
    let paid = s.cancel_payout_at(now);
    let refund = s.cancel_refund_at(now);
    assert(paid >= 0 && refund >= 0);
    let first: Seq<TokenTransfer> = if paid > 0 {
        seq![TokenTransfer { token: s.token, from: v.address, to: v.owner(id), amount: paid as i128 }]
    } else {
        seq![]
    };
    let second: Seq<TokenTransfer> = if refund > 0 {
        seq![TokenTransfer { token: s.token, from: v.address, to: s.sender, amount: refund as i128 }]
    } else {
        seq![]
    };
    assert(moved == first + second);
    assert(paid as i128 == paid && refund as i128 == refund);
    assert(amount_moved(Seq::<TokenTransfer>::empty()) == 0);
    if paid > 0 && refund > 0 {
        assert(moved.len() == 2 && moved[0] == first[0] && moved[1] == second[0]);
        assert(moved.drop_last() =~= first);
        assert(first.drop_last() =~= Seq::<TokenTransfer>::empty());
        assert(amount_moved(first) == paid);
        assert(amount_moved(moved) == paid + refund);
    } else if paid > 0 {
        assert(moved =~= first);
        assert(first.drop_last() =~= Seq::<TokenTransfer>::empty());
        assert(amount_moved(moved) == paid);
    } else if refund > 0 {
        assert(moved =~= second);
        assert(second.drop_last() =~= Seq::<TokenTransfer>::empty());
        assert(amount_moved(moved) == refund);
    } else {
        assert(moved =~= Seq::<TokenTransfer>::empty());
    }
}

/// A claim or a withdrawal pays out exactly what it adds to the stream's
/// withdrawn amount: the one transfer it queues leaves the contract with that
/// amount, and no other stream changes. Over any sequence of payouts the
/// withdrawn amount is therefore the sum of what was paid.
pub proof fn lemma_payout_accounts(v: LedgerView, now: u64, id: u64, payee: Address, amount: int)
    requires
        v.valid(),
        v.has_stream(id),
        0 < amount,
        v.stream(id).withdrawn_amount + amount <= v.stream(id).total_amount,
    ensures
        ({
            let w = PaymentStreamContract::after_payout(v, now, id, payee, amount);
            &&& w.transfers == v.transfers.push(
                TokenTransfer {
                    token: v.stream(id).token,
                    from: v.address,
                    to: payee,
                    amount: amount as i128,
                },
            )
            &&& amount as i128 == amount
            &&& w.streams.len() == v.streams.len()
            &&& w.stream(id).withdrawn_amount == v.stream(id).withdrawn_amount + amount
            &&& forall|k: u64| #[trigger] w.has_stream(k) && k != id ==> w.stream(k) == v.stream(k)
        }),
{
    assert(v.entry_valid(id - 1));
}

/// Following the store is reflexive: doing nothing is a legal step.
pub proof fn lemma_evolves_reflexive(a: LedgerView)
    ensures
        a.evolves_to(a),
{
    assert forall|i: int| 0 <= i < a.streams.len() implies #[trigger] LedgerView::stream_evolves(
        a.streams[i],
        a.streams[i],
    ) by {}
}

/// Any sequence of operations keeps what one operation keeps: streams are
/// never removed, what is fixed at creation stays, the withdrawn amount of
/// each stream never decreases, and a canceled or completed stream stays as
/// it is.
pub proof fn lemma_evolves_transitive(a: LedgerView, b: LedgerView, c: LedgerView)
    requires
        a.evolves_to(b),
        b.evolves_to(c),
    ensures
        a.evolves_to(c),
        forall|i: int|
            0 <= i < a.streams.len() ==> a.streams[i].withdrawn_amount
                <= #[trigger] c.streams[i].withdrawn_amount,
{
    assert forall|i: int| 0 <= i < a.streams.len() implies #[trigger] LedgerView::stream_evolves(
        a.streams[i],
        c.streams[i],
    ) by {
        assert(LedgerView::stream_evolves(a.streams[i], b.streams[i]));
        assert(LedgerView::stream_evolves(b.streams[i], c.streams[i]));
    }
    assert forall|i: int| 0 <= i < a.streams.len() implies a.streams[i].withdrawn_amount
        <= #[trigger] c.streams[i].withdrawn_amount by {
        assert(LedgerView::stream_evolves(a.streams[i], c.streams[i]));
    }
}

/// Transitions outside the lifecycle are refused with the state error, for
/// a caller with the needed authorization: resuming an active stream is
/// "not paused", pausing a paused one is "not active", and claiming from a
/// canceled or completed one is "not active".
pub proof fn lemma_illegal_transitions(v: LedgerView, ctx: CallContext, id: u64)
    requires
        v.has_stream(id),
    ensures
        v.stream(id).status == StreamStatus::Active && ctx.authorizes_spec(v.stream(id).sender)
            ==> PaymentStreamContract::resume_check(v, ctx, id) == Some(Error::StreamNotPaused),
        v.stream(id).status == StreamStatus::Paused && ctx.authorizes_spec(v.stream(id).sender)
            ==> PaymentStreamContract::pause_check(v, ctx, id) == Some(Error::StreamNotActive),
        v.stream(id).status == StreamStatus::Canceled || v.stream(id).status
            == StreamStatus::Completed ==> PaymentStreamContract::claim_check(v, ctx, id) == Some(
            Error::StreamNotActive,
        ),
{
}

/// A mutating call without a valid proof from the party it needs is
/// refused; each operation's contract then leaves the state as it was.
pub proof fn lemma_unauthorized_refused(
    v: LedgerView,
    ctx: CallContext,
    id: u64,
    amount: i128,
    party: Address,
    total_amount: i128,
    start_time: u64,
    end_time: u64,
)
    requires
        v.valid(),
        !ctx.authorizes_spec(party),
    ensures
        PaymentStreamContract::create_check(ctx, party, total_amount, start_time, end_time)
            == Some(Error::Unauthorized),
        v.admin is None ==> PaymentStreamContract::initialize_check(v, ctx, party) == Some(
            Error::Unauthorized,
        ),
        v.has_stream(id) && party == v.stream(id).sender ==> {
            &&& PaymentStreamContract::pause_check(v, ctx, id) == Some(Error::Unauthorized)
            &&& PaymentStreamContract::resume_check(v, ctx, id) == Some(Error::Unauthorized)
            &&& PaymentStreamContract::cancel_check(v, ctx, id) == Some(Error::Unauthorized)
        },
        v.has_stream(id) && party == v.stream(id).recipient ==> {
            &&& PaymentStreamContract::withdraw_check(v, ctx, id, amount) == Some(
                Error::Unauthorized,
            )
            &&& PaymentStreamContract::withdraw_max_check(v, ctx, id) is Some
        },
        v.has_stream(id) && party == v.owner(id) ==> {
            &&& PaymentStreamContract::claim_check(v, ctx, id) is Some
            &&& PaymentStreamContract::transfer_check(v, ctx, id) is Some
        },
{
}

/// A stream created non-transferable can never change hands: whoever
/// calls, the transfer is refused as not transferable.
pub proof fn lemma_transfer_gated(v: LedgerView, ctx: CallContext, id: u64)
    requires
        v.has_stream(id),
        !v.stream(id).transferable,
    ensures
        PaymentStreamContract::transfer_check(v, ctx, id) == Some(Error::StreamNotTransferable),
{
}

} // verus!
