//! Batch payouts: one sender paying many recipients at once, in equal
//! shares or in given amounts. The planner decides the transfers; the token
//! contract carries them out.

use crate::types::{Address, CallContext, Error, TokenTransfer};
use vstd::prelude::*;

verus! {

/// The distributor's state: its admin, once set.
pub struct DistributorContract {
    admin: Option<Address>,
}

impl View for DistributorContract {
    type V = Option<Address>;

    closed spec fn view(&self) -> Option<Address> {
        self.admin
    }
}

impl DistributorContract {
    pub fn new() -> (r: DistributorContract)
        ensures
            r@ is None,
    {
        DistributorContract { admin: None }
    }

    /// Records `admin` as the admin, with the admin's authorization.
    pub fn initialize(&mut self, ctx: &CallContext, admin: Address) -> (r: Result<(), Error>)
        ensures
            ctx.authorizes_spec(admin) ==> r is Ok && final(self)@ == Some(admin),
            !ctx.authorizes_spec(admin) ==> r == Err::<(), Error>(Error::Unauthorized)
                && final(self)@ == old(self)@,
    {
        if !ctx.authorizes(&admin) {
            return Err(Error::Unauthorized);
        }
        self.admin = Some(admin);
        Ok(())
    }

    pub fn get_admin(&self) -> (r: Option<Address>)
        ensures
            r == self@,
    {
        self.admin
    }

    /// Splits `total_amount` of `token` from `sender` equally over
    /// `recipients`, each getting the total divided by their number, rounded
    /// toward zero; what the rounding leaves stays with the sender.
    pub fn distribute_equal(
        sender: Address,
        token: Address,
        total_amount: i128,
        recipients: &[Address],
    ) -> (r: Vec<TokenTransfer>)
        requires
            recipients@.len() > 0,
            total_amount > 0,
            (total_amount as int) / (recipients@.len() as int) > 0,
        ensures
            r@.len() == recipients@.len(),
            forall|i: int|
                0 <= i < r@.len() ==> #[trigger] r@[i] == (TokenTransfer {
                    token,
                    from: sender,
                    to: recipients@[i],
                    amount: ((total_amount as int) / (recipients@.len() as int)) as i128,
                }),
    {
        let count: usize = recipients.len();
        let share: i128 = total_amount / (count as i128);
        let mut out: Vec<TokenTransfer> = Vec::new();
        let mut i: usize = 0;
        while i < count
            invariant
                count == recipients@.len(),
                share == (total_amount as int) / (count as int),
                i <= count,
                out@.len() == i,
                forall|j: int|
                    0 <= j < i ==> #[trigger] out@[j] == (TokenTransfer {
                        token,
                        from: sender,
                        to: recipients@[j],
                        amount: share,
                    }),
            decreases count - i,
        {
            out.push(TokenTransfer { token, from: sender, to: recipients[i], amount: share });
            i += 1;
        }
        out
    }

    /// Pays each of `recipients` the amount at the same position of
    /// `amounts`, from `sender`.
    pub fn distribute_weighted(
        sender: Address,
        token: Address,
        recipients: &[Address],
        amounts: &[i128],
    ) -> (r: Vec<TokenTransfer>)
        requires
            recipients@.len() == amounts@.len(),
            recipients@.len() > 0,
        ensures
            r@.len() == recipients@.len(),
            forall|i: int|
                0 <= i < r@.len() ==> #[trigger] r@[i] == (TokenTransfer {
                    token,
                    from: sender,
                    to: recipients@[i],
                    amount: amounts@[i],
                }),
    {
        let mut out: Vec<TokenTransfer> = Vec::new();
        let mut i: usize = 0;
        while i < recipients.len()
            invariant
                recipients@.len() == amounts@.len(),
                i <= recipients@.len(),
                out@.len() == i,
                forall|j: int|
                    0 <= j < i ==> #[trigger] out@[j] == (TokenTransfer {
                        token,
                        from: sender,
                        to: recipients@[j],
                        amount: amounts@[j],
                    }),
            decreases recipients@.len() - i,
        {
            out.push(TokenTransfer { token, from: sender, to: recipients[i], amount: amounts[i] });
            i += 1;
        }
        out
    }
}

} // verus!
