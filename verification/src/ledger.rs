//! What the exchange asks of the world outside it, and how it reads the
//! answers. The exchange makes no call itself: an operation names its next
//! request, the caller performs it once and hands the answer back.

use crate::address::{AccountAddress, Address, ContractAddress};
use crate::errors::DexError;
use crate::state::{Amount, ContractTokenAmount, ContractTokenId};
use vstd::prelude::*;

verus! {

/// What a ledger says when asked whether it implements the token standard.
#[derive(Debug, PartialEq, Eq)]
pub enum SupportResult {
    /// It does not.
    NoSupport,
    /// It does.
    Support,
    /// These contracts do so on its behalf.
    SupportBy(Vec<ContractAddress>),
}

/// Who receives the tokens of a transfer.
#[derive(Clone, Copy, Debug, PartialEq, Eq)]
pub enum Receiver {
    /// An account.
    Account(AccountAddress),
    /// A contract, which the ledger tells of the transfer at the named entry
    /// point.
    Contract(ContractAddress, &'static str),
}

/// One request to the world outside the exchange.
#[derive(Clone, Copy, Debug, PartialEq, Eq)]
#[allow(inconsistent_fields)]
pub enum Request {
    /// Does `ledger` implement the token standard?
    Supports { ledger: ContractAddress },
    /// May `operator` move the tokens of `owner` on `ledger`?
    OperatorOf { ledger: ContractAddress, owner: Address, operator: Address },
    /// How many units of `token_id` does `owner` hold on `ledger`?
    BalanceOf { ledger: ContractAddress, token_id: ContractTokenId, owner: Address },
    /// Move `amount` units of `token_id` on `ledger` from `from` to `to`.
    Transfer {
        ledger: ContractAddress,
        from: Address,
        to: Receiver,
        token_id: ContractTokenId,
        amount: ContractTokenAmount,
    },
    /// Move `amount` of the currency that the exchange holds to the account
    /// `to`.
    Payout { to: AccountAddress, amount: Amount },
}

/// The answer to one request.
#[derive(Debug, PartialEq, Eq)]
pub enum Response {
    /// The answer to `Request::Supports`.
    Supports(SupportResult),
    /// The answer to `Request::OperatorOf`.
    OperatorOf(bool),
    /// The answer to `Request::BalanceOf`.
    BalanceOf(ContractTokenAmount),
    /// The tokens of a `Request::Transfer` have moved.
    Transferred,
    /// The currency of a `Request::Payout` has moved.
    PaidOut,
    /// The request failed: it did not arrive, it was rejected, or its answer
    /// could not be read.
    Failed,
}

/// The ledger to use after `response` was given to the question whether
/// `asked` implements the token standard. A ledger that names others in its
/// place is replaced by the first of them.
pub open spec fn supported_ledger(response: Response, asked: ContractAddress) -> Result<
    ContractAddress,
    DexError,
> {
    match response {
        Response::Supports(SupportResult::NoSupport) => Err(DexError::CollectionNotSupported),
        Response::Supports(SupportResult::Support) => Ok(asked),
        Response::Supports(SupportResult::SupportBy(contracts)) => if contracts@.len() > 0 {
            Ok(contracts@[0])
        } else {
            Err(DexError::CollectionNotSupported)
        },
        _ => Err(DexError::LedgerCommunicationError),
    }
}

/// Whether `response` confirms the operator that was asked about.
pub open spec fn confirmed_operator(response: Response) -> Result<(), DexError> {
    match response {
        Response::OperatorOf(true) => Ok(()),
        Response::OperatorOf(false) => Err(DexError::NotAuthorizedOperator),
        _ => Err(DexError::LedgerCommunicationError),
    }
}

/// Whether `response` reports a balance of at least `minimum_balance`.
pub open spec fn sufficient_balance(
    response: Response,
    minimum_balance: ContractTokenAmount,
) -> Result<(), DexError> {
    match response {
        Response::BalanceOf(balance) => if balance >= minimum_balance {
            Ok(())
        } else {
            Err(DexError::InsufficientExternalBalance)
        },
        _ => Err(DexError::LedgerCommunicationError),
    }
}

/// Whether `response` reports that tokens have moved.
pub open spec fn confirmed_transfer(response: Response) -> Result<(), DexError> {
    match response {
        Response::Transferred => Ok(()),
        _ => Err(DexError::LedgerCommunicationError),
    }
}

/// Whether `response` reports that currency has moved.
pub open spec fn confirmed_payout(response: Response) -> Result<(), DexError> {
    match response {
        Response::PaidOut => Ok(()),
        _ => Err(DexError::CurrencyTransferFailed),
    }
}

/// Reads the answer to the question whether `cis_contract_address`
/// implements the token standard, and gives the ledger to use from then on.
pub fn ensure_supports_cis2(response: &Response, cis_contract_address: &ContractAddress) -> (ledger:
    Result<ContractAddress, DexError>)
    ensures
        ledger == supported_ledger(*response, *cis_contract_address),
{
    match response {
        Response::Supports(SupportResult::NoSupport) => Err(DexError::CollectionNotSupported),
        Response::Supports(SupportResult::Support) => Ok(*cis_contract_address),
        Response::Supports(SupportResult::SupportBy(contracts)) => {
            if contracts.len() > 0 {
                Ok(contracts[0])
            } else {
                Err(DexError::CollectionNotSupported)
            }
        },
        _ => Err(DexError::LedgerCommunicationError),
    }
}

/// Reads the answer to the question whether the exchange is an operator of
/// the owner.
pub fn ensure_is_operator(response: &Response) -> (confirmed: Result<(), DexError>)
    ensures
        confirmed == confirmed_operator(*response),
{
    match response {
        Response::OperatorOf(true) => Ok(()),
        Response::OperatorOf(false) => Err(DexError::NotAuthorizedOperator),
        _ => Err(DexError::LedgerCommunicationError),
    }
}

/// Reads the answer to the question how many units the owner holds, and
/// compares it with `minimum_balance`.
pub fn ensure_balance(response: &Response, minimum_balance: ContractTokenAmount) -> (sufficient:
    Result<(), DexError>)
    ensures
        sufficient == sufficient_balance(*response, minimum_balance),
{
    match response {
        Response::BalanceOf(balance) => {
            if *balance >= minimum_balance {
                Ok(())
            } else {
                Err(DexError::InsufficientExternalBalance)
            }
        },
        _ => Err(DexError::LedgerCommunicationError),
    }
}

/// Reads the answer to a transfer of tokens.
pub fn ensure_transferred(response: &Response) -> (confirmed: Result<(), DexError>)
    ensures
        confirmed == confirmed_transfer(*response),
{
    match response {
        Response::Transferred => Ok(()),
        _ => Err(DexError::LedgerCommunicationError),
    }
}

/// Reads the answer to a payout of currency.
pub fn ensure_paid_out(response: &Response) -> (confirmed: Result<(), DexError>)
    ensures
        confirmed == confirmed_payout(*response),
{
    match response {
        Response::PaidOut => Ok(()),
        _ => Err(DexError::CurrencyTransferFailed),
    }
}

} // verus!
