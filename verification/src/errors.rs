//! The ways in which an operation of the exchange ends without success.

use vstd::prelude::*;

verus! {

/// Why an operation was rejected. Every one of them ends the operation and
/// leaves the listings as they were.
#[derive(Clone, Copy, Debug, PartialEq, Eq, Structural)]
pub enum DexError {
    /// The parameter bytes of the call could not be decoded.
    ParameterDecodeFailure,
    /// An operation for accounts only was called by a contract.
    CallerIsContract,
    /// The ledger does not implement the token standard, or names nobody who
    /// does so on its behalf.
    CollectionNotSupported,
    /// The exchange is not an operator of the owner on the ledger.
    NotAuthorizedOperator,
    /// The owner holds fewer tokens on the ledger than are to be listed.
    InsufficientExternalBalance,
    /// No listing exists for the token and owner.
    ListingNotFound,
    /// More tokens were asked for than the listing holds.
    InsufficientListedQuantity,
    /// Less currency was attached than price times quantity.
    UnderpaidRequest,
    /// The exchange holds less currency than it would have to pay out.
    InsufficientContractFunds,
    /// A call to the ledger failed, or its answer could not be used.
    LedgerCommunicationError,
    /// Currency could not be moved out of the exchange.
    CurrencyTransferFailed,
    /// A privileged operation was called by somebody not entitled to it.
    Unauthorized,
}

} // verus!
