//! The parameter and result records of the operations of the exchange.

use crate::address::{AccountAddress, ContractAddress};
use crate::state::{Amount, ContractTokenAmount, ContractTokenId, TokenListItem};
use vstd::prelude::*;

verus! {

/// What `add` is called with.
#[derive(Clone, Copy, Debug, PartialEq, Eq, Structural)]
pub struct AddParams {
    /// The ledger that holds the token.
    pub cis_contract_address: ContractAddress,
    /// The token to be listed.
    pub token_id: ContractTokenId,
    /// The price of one unit of the token.
    pub price: Amount,
    /// How many units are listed; one for a token that exists once.
    pub quantity: ContractTokenAmount,
}

/// What `transfer` and `transfer_cis2` are called with.
#[derive(Clone, Copy, Debug, PartialEq, Eq)]
pub struct TransferParams {
    /// The ledger that holds the token.
    pub cis_contract_address: ContractAddress,
    /// The token to be traded.
    pub token_id: ContractTokenId,
    /// The account that receives the tokens of a purchase.
    pub to: AccountAddress,
    /// The account that listed the tokens.
    pub owner: AccountAddress,
    /// How many units are traded.
    pub quantity: ContractTokenAmount,
}

/// What `list` answers: the listings that still have units on offer.
#[derive(Debug, PartialEq, Eq)]
pub struct TokenList(pub Vec<TokenListItem>);

/// What `init` is called with.
#[derive(Clone, Copy, Debug, PartialEq, Eq, Structural)]
pub struct InitParams {
    /// How many listings the exchange is expected to hold.
    pub amount: u16,
}

} // verus!
