//! How the currency of a trade is divided among those who are paid, and how
//! the payments are made: one after the other, each once, and none after one
//! that failed.

use crate::address::AccountAddress;
use crate::errors::DexError;
use crate::ledger::{ensure_paid_out, Response};
use crate::state::Amount;
use vstd::prelude::*;

verus! {

/// The parts into which the currency of a trade is divided. Today there is
/// one part: all of it goes to the owner of the tokens.
#[derive(Clone, Copy, Debug, PartialEq, Eq, Structural)]
pub struct DistributableAmounts {
    pub to_primary_owner: Amount,
}

impl DistributableAmounts {
    /// The sum of the parts.
    pub open spec fn total(self) -> int {
        self.to_primary_owner as int
    }
}

/// One movement of currency out of the exchange.
#[derive(Clone, Copy, Debug, PartialEq, Eq)]
pub struct Payment {
    pub to: AccountAddress,
    pub amount: Amount,
}

/// The sum of the amounts of `payments`.
pub open spec fn total_paid(payments: Seq<Payment>) -> int
    decreases payments.len(),
{
    if payments.len() == 0 {
        0
    } else {
        total_paid(payments.drop_last()) + payments.last().amount
    }
}

/// The payments that distribute `amount`: all of it to `token_owner`, and no
/// payment of nothing.
pub open spec fn distribution(amount: Amount, token_owner: AccountAddress) -> Seq<Payment> {
    if amount > 0 {
        seq![Payment { to: token_owner, amount }]
    } else {
        Seq::empty()
    }
}

/// Divides `amount` into its parts. The parts add up to `amount`: nothing is
/// dropped.
pub fn calculate_amounts(amount: &Amount) -> (amounts: DistributableAmounts)
    ensures
        amounts.to_primary_owner == *amount,
        amounts.total() == *amount,
{
    DistributableAmounts { to_primary_owner: *amount }
}

/// The payments to make so that `amount` reaches those it is divided among.
/// They add up to `amount`.
pub fn distribute_amounts(amount: Amount, token_owner: &AccountAddress) -> (payments: Vec<Payment>)
    ensures
        payments@ == distribution(amount, *token_owner),
        total_paid(payments@) == amount,
{
    let amounts = calculate_amounts(&amount);
    let mut payments: Vec<Payment> = Vec::new();
    if amounts.to_primary_owner > 0 {
        payments.push(Payment { to: *token_owner, amount: amounts.to_primary_owner });
        assert(payments@ =~= distribution(amount, *token_owner));
        assert(payments@.drop_last() =~= Seq::<Payment>::empty());
        assert(total_paid(payments@.drop_last()) == 0);
    }
    payments
}

/// How a distribution goes on after `answer` has come to the payment at
/// `next`: after a payment that was made, with the payment that follows it,
/// or with none where it was the last; after anything else, with the error
/// of a failed payout.
pub open spec fn distribution_after(
    payments: Seq<Payment>,
    next: usize,
    answer: Response,
) -> Result<Option<usize>, DexError> {
    if answer is PaidOut {
        Ok(
            if next + 1 < payments.len() {
                Some((next + 1) as usize)
            } else {
                None
            },
        )
    } else {
        Err(DexError::CurrencyTransferFailed)
    }
}

/// What a distribution does after `answer` has come to the payment at
/// `next`. A payment that failed ends the distribution: no payment follows
/// it.
pub fn distribution_step(payments: &Vec<Payment>, next: usize, answer: &Response) -> (step: Result<
    Option<usize>,
    DexError,
>)
    requires
        next < payments@.len(),
    ensures
        step == distribution_after(payments@, next, *answer),
{
    match ensure_paid_out(answer) {
        Err(error) => Err(error),
        Ok(_) => {
            if next < payments.len() - 1 {
                Ok(Some(next + 1))
            } else {
                Ok(None)
            }
        },
    }
}

} // verus!
