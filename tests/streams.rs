use payment_stream::{
    Address, CallContext, Error, PaymentStreamContract, StreamEvent, StreamStatus, TokenTransfer,
};

fn addr(tag: u8) -> Address {
    let mut key = [b'G'; 56];
    key[54] = b'A' + tag / 26;
    key[55] = b'A' + tag % 26;
    Address::new(key)
}

struct World {
    contract: PaymentStreamContract,
    sender: Address,
    recipient: Address,
    token: Address,
}

fn world() -> World {
    World {
        contract: PaymentStreamContract::new(addr(0)),
        sender: addr(1),
        recipient: addr(2),
        token: addr(3),
    }
}

/// A call at `timestamp` that every party of the world has authorized.
fn all(w: &World, timestamp: u64) -> CallContext {
    CallContext::new(timestamp, vec![addr(9), w.sender, w.recipient, addr(4), addr(5)])
}

fn none(timestamp: u64) -> CallContext {
    CallContext::new(timestamp, Vec::new())
}

/// The balance of `who` in `token`, starting from `initial` and following
/// every transfer the contract has decided on.
fn balance(c: &PaymentStreamContract, token: Address, who: Address, initial: i128) -> i128 {
    let mut b = initial;
    for t in c.transfers().iter() {
        if t.token == token {
            if t.to == who {
                b += t.amount;
            }
            if t.from == who {
                b -= t.amount;
            }
        }
    }
    b
}

fn create_default(w: &mut World, transferable: bool) -> u64 {
    let ctx = all(w, 0);
    w.contract
        .create_stream(&ctx, w.sender, w.recipient, w.token, 1000, 0, 100, transferable)
        .unwrap()
}

fn check_create_stream() {
    let mut w = world();
    let ctx = all(&w, 0);
    w.contract.initialize(&ctx, addr(9)).unwrap();
    let stream_id = create_default(&mut w, false);
    assert_eq!(stream_id, 1);
    let stream = w.contract.get_stream(stream_id).unwrap();
    assert_eq!(stream.total_amount, 1000);
    assert_eq!(stream.status, StreamStatus::Active);
    let me = w.contract.address();
    assert_eq!(balance(&w.contract, w.token, me, 0), 1000);
}

#[test]
fn lib_test_create_stream() {
    check_create_stream();
}

#[test]
fn test_test_create_stream() {
    check_create_stream();
}

fn check_withdrawable_amount() {
    let mut w = world();
    let stream_id = create_default(&mut w, false);
    let available = w.contract.withdrawable_amount(&all(&w, 50), stream_id).unwrap();
    assert_eq!(available, 500);
}

#[test]
fn lib_test_withdrawable_amount() {
    check_withdrawable_amount();
}

#[test]
fn test_test_withdrawable_amount() {
    check_withdrawable_amount();
}

fn check_withdraw() {
    let mut w = world();
    let stream_id = create_default(&mut w, false);
    let ctx = all(&w, 50);
    w.contract.withdraw(&ctx, stream_id, 300).unwrap();
    let stream = w.contract.get_stream(stream_id).unwrap();
    assert_eq!(stream.withdrawn_amount, 300);
    let me = w.contract.address();
    assert_eq!(balance(&w.contract, w.token, w.recipient, 0), 300);
    assert_eq!(balance(&w.contract, w.token, me, 0), 700);
}

#[test]
fn lib_test_withdraw() {
    check_withdraw();
}

#[test]
fn test_test_withdraw() {
    check_withdraw();
}

fn check_withdraw_max() {
    let mut w = world();
    let stream_id = create_default(&mut w, false);
    let ctx = all(&w, 50);
    w.contract.withdraw_max(&ctx, stream_id).unwrap();
    let stream = w.contract.get_stream(stream_id).unwrap();
    assert_eq!(stream.withdrawn_amount, 500);
    let me = w.contract.address();
    assert_eq!(balance(&w.contract, w.token, w.recipient, 0), 500);
    assert_eq!(balance(&w.contract, w.token, me, 0), 500);
}

#[test]
fn lib_test_withdraw_max() {
    check_withdraw_max();
}

#[test]
fn test_test_withdraw_max() {
    check_withdraw_max();
}

fn check_cancel_stream() {
    let mut w = world();
    let stream_id = create_default(&mut w, false);
    let ctx = all(&w, 50);
    w.contract.withdraw(&ctx, stream_id, 500).unwrap();
    w.contract.cancel_stream(&ctx, stream_id).unwrap();
    let stream = w.contract.get_stream(stream_id).unwrap();
    assert_eq!(stream.status, StreamStatus::Canceled);
    let me = w.contract.address();
    assert_eq!(balance(&w.contract, w.token, w.sender, 1000), 500);
    assert_eq!(balance(&w.contract, w.token, me, 0), 0);
}

#[test]
fn lib_test_cancel_stream() {
    check_cancel_stream();
}

#[test]
fn test_test_cancel_stream() {
    check_cancel_stream();
}

fn check_get_nonexistent_stream() {
    let mut w = world();
    let ctx = all(&w, 0);
    w.contract.initialize(&ctx, addr(9)).unwrap();
    assert_eq!(w.contract.get_stream(999), Err(Error::StreamNotFound));
}

#[test]
fn lib_test_get_nonexistent_stream() {
    check_get_nonexistent_stream();
}

#[test]
fn test_test_get_nonexistent_stream() {
    check_get_nonexistent_stream();
}

fn check_unauthorized_withdraw() {
    let mut w = world();
    let stream_id = create_default(&mut w, false);
    let before = w.contract.get_stream(stream_id).unwrap();
    let ctx = CallContext::new(50, vec![w.sender]);
    assert_eq!(w.contract.withdraw(&ctx, stream_id, 300), Err(Error::Unauthorized));
    assert_eq!(w.contract.get_stream(stream_id).unwrap(), before);
    assert_eq!(w.contract.transfers().len(), 1);
}

#[test]
fn lib_test_unauthorized_withdraw() {
    check_unauthorized_withdraw();
}

#[test]
fn test_test_unauthorized_withdraw() {
    check_unauthorized_withdraw();
}

#[test]
fn test_pause_and_resume_stream() {
    let mut w = world();
    let stream_id = create_default(&mut w, false);
    assert_eq!(w.contract.get_stream(stream_id).unwrap().status, StreamStatus::Active);
    let ctx = all(&w, 0);
    w.contract.pause_stream(&ctx, stream_id).unwrap();
    assert_eq!(w.contract.get_stream(stream_id).unwrap().status, StreamStatus::Paused);
    w.contract.resume_stream(&ctx, stream_id).unwrap();
    assert_eq!(w.contract.get_stream(stream_id).unwrap().status, StreamStatus::Active);
}

#[test]
fn vesting_is_linear_and_capped() {
    let mut w = world();
    let id = create_default(&mut w, false);
    let s = w.contract.get_stream(id).unwrap();
    assert_eq!(PaymentStreamContract::calculate_vested(&s, 50), 500);
    assert_eq!(PaymentStreamContract::calculate_vested(&s, 0), 0);
    assert_eq!(PaymentStreamContract::calculate_vested(&s, 100), 1000);
    assert_eq!(PaymentStreamContract::calculate_vested(&s, 150), 1000);
}

#[test]
fn scenario_withdraw_then_cancel() {
    let mut w = world();
    let id = create_default(&mut w, false);
    let ctx = all(&w, 50);
    let me = w.contract.address();
    assert_eq!(w.contract.withdrawable_amount(&ctx, id), Ok(500));
    w.contract.withdraw(&ctx, id, 300).unwrap();
    assert_eq!(w.contract.get_stream(id).unwrap().withdrawn_amount, 300);
    assert_eq!(balance(&w.contract, w.token, w.recipient, 0), 300);
    assert_eq!(balance(&w.contract, w.token, me, 0), 700);
    w.contract.cancel_stream(&ctx, id).unwrap();
    assert_eq!(balance(&w.contract, w.token, w.recipient, 0), 500);
    assert_eq!(balance(&w.contract, w.token, w.sender, 1000), 500);
    assert_eq!(balance(&w.contract, w.token, me, 0), 0);
    let t = w.contract.transfers();
    assert_eq!(
        t[2],
        TokenTransfer { token: w.token, from: me, to: w.recipient, amount: 200 }
    );
    assert_eq!(t[3], TokenTransfer { token: w.token, from: me, to: w.sender, amount: 500 });
    match w.contract.events().last() {
        Some(StreamEvent::Cancelled(e)) => {
            assert_eq!(e.refund_amount, 500);
            assert_eq!(e.vested_amount, 200);
            assert_eq!(e.timestamp, 50);
        }
        _ => panic!("expected a cancellation event"),
    }
}

#[test]
fn conservation_after_claims_and_cancel() {
    let mut w = world();
    let c = w.contract.create_stream(&all(&w, 3), w.sender, w.recipient, w.token, 997, 3, 10, true);
    let id = c.unwrap();
    w.contract.claim(&all(&w, 5), id).unwrap();
    w.contract.withdraw(&all(&w, 6), id, 100).unwrap();
    w.contract.claim(&all(&w, 7), id).unwrap();
    w.contract.cancel_stream(&all(&w, 8), id).unwrap();
    let me = w.contract.address();
    let s = w.contract.get_stream(id).unwrap();
    // vested(7) = 997 * 4 / 7 = 569; vested(8) = 997 * 5 / 7 = 712
    assert_eq!(s.withdrawn_amount, 569);
    assert_eq!(balance(&w.contract, w.token, w.recipient, 0), 712);
    assert_eq!(balance(&w.contract, w.token, w.sender, 997), 997 - 712);
    assert_eq!(balance(&w.contract, w.token, me, 0), 0);
}

#[test]
fn withdrawn_amount_never_decreases() {
    let mut w = world();
    let id = create_default(&mut w, true);
    let mut last = 0;
    let steps: Vec<u64> = vec![10, 10, 25, 40, 40, 90, 120];
    for (k, t) in steps.iter().enumerate() {
        let ctx = all(&w, *t);
        let _ = match k % 3 {
            0 => w.contract.claim(&ctx, id).map(|_| ()),
            1 => w.contract.withdraw(&ctx, id, 1),
            _ => w.contract.withdraw_max(&ctx, id),
        };
        let now = w.contract.get_stream(id).unwrap().withdrawn_amount;
        assert!(now >= last);
        last = now;
    }
    assert_eq!(last, 1000);
    assert_eq!(w.contract.get_stream(id).unwrap().status, StreamStatus::Completed);
}

#[test]
fn reading_twice_gives_the_same_stream() {
    let mut w = world();
    let id = create_default(&mut w, true);
    w.contract.withdraw(&all(&w, 20), id, 50).unwrap();
    let a = w.contract.get_stream(id).unwrap();
    let b = w.contract.get_stream(id).unwrap();
    assert_eq!(a, b);
}

#[test]
fn illegal_transitions_are_refused() {
    let mut w = world();
    let id = create_default(&mut w, false);
    let ctx = all(&w, 10);
    assert_eq!(w.contract.resume_stream(&ctx, id), Err(Error::StreamNotPaused));
    w.contract.pause_stream(&ctx, id).unwrap();
    assert_eq!(w.contract.pause_stream(&ctx, id), Err(Error::StreamNotActive));
    assert_eq!(w.contract.claim(&ctx, id), Err(Error::StreamNotActive));
    w.contract.cancel_stream(&ctx, id).unwrap();
    assert_eq!(w.contract.claim(&ctx, id), Err(Error::StreamNotActive));
    assert_eq!(w.contract.cancel_stream(&ctx, id), Err(Error::StreamCannotBeCanceled));

    let done = create_default(&mut w, false);
    w.contract.claim(&all(&w, 100), done).unwrap();
    assert_eq!(w.contract.get_stream(done).unwrap().status, StreamStatus::Completed);
    assert_eq!(w.contract.claim(&all(&w, 100), done), Err(Error::StreamNotActive));
}

#[test]
fn unauthorized_calls_change_nothing() {
    let mut w = world();
    let id = create_default(&mut w, true);
    let before = w.contract.get_stream(id).unwrap();
    let ctx = none(40);
    assert_eq!(w.contract.claim(&ctx, id), Err(Error::Unauthorized));
    assert_eq!(w.contract.withdraw(&ctx, id, 10), Err(Error::Unauthorized));
    assert_eq!(w.contract.withdraw_max(&ctx, id), Err(Error::Unauthorized));
    assert_eq!(w.contract.pause_stream(&ctx, id), Err(Error::Unauthorized));
    assert_eq!(w.contract.resume_stream(&ctx, id), Err(Error::Unauthorized));
    assert_eq!(w.contract.cancel_stream(&ctx, id), Err(Error::Unauthorized));
    assert_eq!(w.contract.transfer_stream(&ctx, id, addr(7)), Err(Error::Unauthorized));
    assert_eq!(
        w.contract.create_stream(&ctx, w.sender, w.recipient, w.token, 5, 50, 60, false),
        Err(Error::Unauthorized)
    );
    assert_eq!(w.contract.initialize(&ctx, addr(9)), Err(Error::Unauthorized));
    assert_eq!(w.contract.get_stream(id).unwrap(), before);
    assert_eq!(w.contract.stream_count(), 1);
    assert_eq!(w.contract.transfers().len(), 1);
    assert_eq!(w.contract.events().len(), 1);
    assert_eq!(w.contract.admin(), None);
}

#[test]
fn non_transferable_stream_never_changes_hands() {
    let mut w = world();
    let id = create_default(&mut w, false);
    assert_eq!(w.contract.transfer_stream(&all(&w, 1), id, addr(7)), Err(Error::StreamNotTransferable));
    assert_eq!(w.contract.transfer_stream(&none(1), id, addr(7)), Err(Error::StreamNotTransferable));
    w.contract.cancel_stream(&all(&w, 2), id).unwrap();
    assert_eq!(w.contract.transfer_stream(&none(3), id, addr(7)), Err(Error::StreamNotTransferable));
}

#[test]
fn transfer_moves_the_deed_and_claim_rights() {
    let mut w = world();
    let id = create_default(&mut w, true);
    let new_owner = addr(7);
    w.contract.transfer_stream(&all(&w, 10), id, new_owner).unwrap();
    let s = w.contract.get_stream(id).unwrap();
    assert_eq!(s.recipient, new_owner);
    assert_eq!(w.contract.ownership_record_owner(s.ownership_id), Ok(new_owner));
    let record = w.contract.get_ownership_record(s.ownership_id).unwrap();
    assert_eq!(record.stream_id, id);
    assert_eq!(record.minted_at, 0);
    // the former recipient can no longer claim
    let old_only = CallContext::new(30, vec![w.recipient]);
    assert_eq!(w.contract.claim(&old_only, id), Err(Error::Unauthorized));
    let new_only = CallContext::new(30, vec![new_owner]);
    assert_eq!(w.contract.claim(&new_only, id), Ok(300));
    assert_eq!(balance(&w.contract, w.token, new_owner, 0), 300);
    match w.contract.events()[1] {
        StreamEvent::Transferred(e) => {
            assert_eq!(e.from, w.recipient);
            assert_eq!(e.to, new_owner);
            assert_eq!(e.ownership_id, 1);
        }
        _ => panic!("expected a transfer event"),
    }
    assert_eq!(w.contract.transfer_stream(&new_only, id, w.recipient), Ok(()));
}

#[test]
fn create_validates_its_inputs() {
    let mut w = world();
    let ctx = all(&w, 10);
    let (s, r, t) = (w.sender, w.recipient, w.token);
    assert_eq!(w.contract.create_stream(&ctx, s, r, t, 0, 10, 20, false), Err(Error::InvalidAmount));
    assert_eq!(w.contract.create_stream(&ctx, s, r, t, -5, 10, 20, false), Err(Error::InvalidAmount));
    assert_eq!(w.contract.create_stream(&ctx, s, r, t, 5, 20, 20, false), Err(Error::InvalidTimeRange));
    assert_eq!(w.contract.create_stream(&ctx, s, r, t, 5, 30, 20, false), Err(Error::InvalidTimeRange));
    assert_eq!(w.contract.create_stream(&ctx, s, r, t, 5, 9, 20, false), Err(Error::InvalidStartTime));
    assert_eq!(w.contract.stream_count(), 0);
    assert_eq!(w.contract.create_stream(&ctx, s, r, t, 5, 10, 20, false), Ok(1));
    assert_eq!(w.contract.create_stream(&ctx, s, r, t, 5, 10, 20, true), Ok(2));
    assert_eq!(w.contract.get_stream(2).unwrap().ownership_id, 2);
}

#[test]
fn nothing_to_claim_and_insufficient_withdrawable() {
    let mut w = world();
    let ctx = all(&w, 0);
    let id = w.contract.create_stream(&ctx, w.sender, w.recipient, w.token, 1000, 10, 110, false).unwrap();
    assert_eq!(w.contract.claim(&all(&w, 5), id), Err(Error::NoTokensToClaim));
    assert_eq!(w.contract.get_claimable(&all(&w, 5), id), Ok(0));
    assert_eq!(w.contract.withdraw(&all(&w, 60), id, 501), Err(Error::InsufficientWithdrawable));
    assert_eq!(w.contract.withdraw(&all(&w, 60), id, 0), Err(Error::InsufficientWithdrawable));
    assert_eq!(w.contract.withdraw_max(&all(&w, 10), id), Err(Error::InsufficientWithdrawable));
    assert_eq!(w.contract.withdraw(&all(&w, 60), id, 500), Ok(()));
    assert_eq!(w.contract.claim(&all(&w, 60), id), Err(Error::NoTokensToClaim));
}

#[test]
fn paused_stream_keeps_vesting_but_pays_nothing() {
    let mut w = world();
    let id = create_default(&mut w, false);
    w.contract.pause_stream(&all(&w, 20), id).unwrap();
    assert_eq!(w.contract.get_claimable(&all(&w, 60), id), Ok(0));
    assert_eq!(w.contract.withdraw(&all(&w, 60), id, 1), Err(Error::InsufficientWithdrawable));
    w.contract.resume_stream(&all(&w, 60), id).unwrap();
    assert_eq!(w.contract.get_claimable(&all(&w, 60), id), Ok(600));
}

#[test]
fn lookups_of_missing_records() {
    let mut w = world();
    let ctx = all(&w, 0);
    assert_eq!(w.contract.claim(&ctx, 1), Err(Error::StreamNotFound));
    assert_eq!(w.contract.get_claimable(&ctx, 0), Err(Error::StreamNotFound));
    assert_eq!(w.contract.get_ownership_record(1), Err(Error::OwnershipRecordNotFound));
    assert_eq!(w.contract.ownership_record_owner(0), Err(Error::OwnershipRecordNotFound));
    assert_eq!(w.contract.pause_stream(&ctx, 3), Err(Error::StreamNotFound));
}

#[test]
fn initialize_only_once() {
    let mut w = world();
    let ctx = all(&w, 0);
    assert_eq!(w.contract.initialize(&ctx, addr(9)), Ok(()));
    assert_eq!(w.contract.admin(), Some(addr(9)));
    assert_eq!(w.contract.initialize(&ctx, addr(9)), Err(Error::AlreadyInitialized));
}

#[test]
fn claim_rounds_down_and_pays_the_rest_at_the_end() {
    let mut w = world();
    let ctx = all(&w, 0);
    let id = w.contract.create_stream(&ctx, w.sender, w.recipient, w.token, 10, 0, 3, false).unwrap();
    assert_eq!(w.contract.claim(&all(&w, 1), id), Ok(3));
    assert_eq!(w.contract.claim(&all(&w, 2), id), Ok(3));
    assert_eq!(w.contract.claim(&all(&w, 3), id), Ok(4));
    assert_eq!(w.contract.get_stream(id).unwrap().status, StreamStatus::Completed);
}

#[test]
fn vesting_of_the_largest_amounts() {
    let v = payment_stream::vested_amount(i128::MAX, 0, u64::MAX, u64::MAX - 1);
    assert!(v > 0 && v < i128::MAX);
    let half = payment_stream::vested_amount(i128::MAX, 0, u64::MAX - 1, u64::MAX / 2);
    assert_eq!(half, i128::MAX / 2);
    assert_eq!(payment_stream::vested_amount(7, 5, 6, 5), 0);
    assert_eq!(payment_stream::vested_amount(7, 5, 6, 6), 7);
}

#[test]
fn restore_accepts_consistent_records_only() {
    let mut w = world();
    let id = create_default(&mut w, true);
    w.contract.withdraw(&all(&w, 30), id, 100).unwrap();
    let stream = w.contract.get_stream(id).unwrap();
    let record = w.contract.get_ownership_record(id).unwrap();
    let back = PaymentStreamContract::restore(addr(0), None, vec![stream], vec![record]).unwrap();
    assert_eq!(back.get_stream(id), Ok(stream));
    assert_eq!(back.stream_count(), 1);
    assert!(back.transfers().is_empty());
    assert!(back.events().is_empty());

    let mut wrong_id = stream;
    wrong_id.id = 2;
    assert!(PaymentStreamContract::restore(addr(0), None, vec![wrong_id], vec![record]).is_none());
    let mut overdrawn = stream;
    overdrawn.withdrawn_amount = 1001;
    assert!(PaymentStreamContract::restore(addr(0), None, vec![overdrawn], vec![record]).is_none());
    let mut stray_owner = record;
    stray_owner.owner = addr(7);
    assert!(PaymentStreamContract::restore(addr(0), None, vec![stream], vec![stray_owner]).is_none());
    assert!(PaymentStreamContract::restore(addr(0), None, vec![stream], Vec::new()).is_none());
}

#[test]
fn create_announces_the_stream() {
    let mut w = world();
    let id = create_default(&mut w, true);
    match w.contract.events()[0] {
        StreamEvent::Created(e) => {
            assert_eq!(e.stream_id, id);
            assert_eq!(e.sender, w.sender);
            assert_eq!(e.recipient, w.recipient);
            assert_eq!(e.total_amount, 1000);
            assert!(e.transferable);
            assert_eq!(e.ownership_id, 1);
        }
        _ => panic!("expected a creation event"),
    }
}
