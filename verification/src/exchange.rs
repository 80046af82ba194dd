//! The operations of the exchange.
//!
//! An operation that needs the world outside runs in steps. `add`, `transfer`
//! and `transfer_cis2` check what can be checked at once and then either end
//! or name a [`Phase`]: the operation waits there for the answer to
//! [`Phase::request`]. The caller performs that request, once, and hands the
//! answer to [`resume`], which ends the operation or names the next phase.
//! The listings change only in the step that ends an operation with success.

use crate::address::{AccountAddress, Address, ContractAddress};
use crate::errors::DexError;
use crate::ledger::{
    confirmed_operator, confirmed_payout, confirmed_transfer, ensure_balance, ensure_is_operator,
    ensure_paid_out, ensure_supports_cis2, ensure_transferred, sufficient_balance,
    supported_ledger, Receiver, Request, Response,
};
use crate::parameter::{AddParams, InitParams, TokenList, TransferParams};
use crate::settlement::calculate_amounts;
use crate::state::{
    item_with_fewer, on_offer, reports, with_fewer, with_listing, Amount, ContractTokenAmount,
    State, TokenInfo, TokenListItem, TokenOwnerInfo, TokenPriceState,
};
use vstd::prelude::*;

verus! {

/// The entry point of the exchange that a ledger calls when tokens arrive at
/// the exchange.
pub const ESCROW_ENTRYPOINT: &'static str = "receive_ccd";

/// Where an operation waits for an answer from outside.
#[derive(Clone, Copy, Debug, PartialEq, Eq)]
#[allow(inconsistent_fields)]
pub enum Phase {
    /// `add`: does the ledger implement the token standard?
    AddSupport { params: AddParams, owner: AccountAddress, exchange: ContractAddress },
    /// `add`: is the exchange an operator of the owner on `ledger`?
    AddOperator {
        params: AddParams,
        owner: AccountAddress,
        exchange: ContractAddress,
        ledger: ContractAddress,
    },
    /// `add`: does the owner hold on `ledger` what is to be listed?
    AddBalance { params: AddParams, owner: AccountAddress, ledger: ContractAddress },
    /// `transfer`: does the ledger implement the token standard?
    BuySupport { params: TransferParams, exchange: ContractAddress },
    /// `transfer`: have the tokens moved from the exchange to the buyer?
    BuyTransfer { params: TransferParams, exchange: ContractAddress, ledger: ContractAddress },
    /// `transfer_cis2`: does the ledger implement the token standard?
    SellSupport { params: TransferParams, exchange: ContractAddress, payout: Amount },
    /// `transfer_cis2`: have the tokens moved from the owner to the exchange?
    SellTransfer {
        params: TransferParams,
        exchange: ContractAddress,
        ledger: ContractAddress,
        payout: Amount,
    },
    /// `transfer_cis2`: has the currency moved from the exchange to the owner?
    SellPayout { params: TransferParams, payout: Amount },
}

/// How far an operation has come.
#[derive(Clone, Copy, Debug, PartialEq, Eq)]
pub enum Progress {
    /// It waits for the answer to the request of this phase.
    Pending(Phase),
    /// It has ended, with success or with the reason of its rejection.
    Done(Result<(), DexError>),
}

/// An operation after one step: how far it has come, and the listings.
pub ghost struct Step {
    pub progress: Progress,
    pub listings: Map<TokenOwnerInfo, TokenPriceState>,
}

/// The price of `quantity` units at `price` each.
pub open spec fn cost(price: Amount, quantity: ContractTokenAmount) -> int {
    price as int * quantity as int
}

/// The key of the listing that a trade with `params` is about.
pub open spec fn trade_key(params: TransferParams) -> TokenOwnerInfo {
    TokenOwnerInfo { id: params.token_id, address: params.cis_contract_address, owner: params.owner }
}

/// The key of the listing that `add` with `params` makes for `owner`.
pub open spec fn add_key(params: AddParams, owner: AccountAddress) -> TokenOwnerInfo {
    TokenOwnerInfo { id: params.token_id, address: params.cis_contract_address, owner }
}

/// The listing that a trade with `params` takes from, or why there is none
/// to take from: the listing must exist and hold the quantity asked for.
pub open spec fn tradable(
    listings: Map<TokenOwnerInfo, TokenPriceState>,
    params: TransferParams,
) -> Result<TokenPriceState, DexError> {
    if !listings.contains_key(trade_key(params)) {
        Err(DexError::ListingNotFound)
    } else if listings[trade_key(params)].quantity < params.quantity {
        Err(DexError::InsufficientListedQuantity)
    } else {
        Ok(listings[trade_key(params)])
    }
}

/// The step that ends an operation with `error`. The listings stay.
pub open spec fn rejected(
    error: DexError,
    listings: Map<TokenOwnerInfo, TokenPriceState>,
) -> Step {
    Step { progress: Progress::Done(Err(error)), listings }
}

/// The step that leads to `phase`. The listings stay.
pub open spec fn waiting(phase: Phase, listings: Map<TokenOwnerInfo, TokenPriceState>) -> Step {
    Step { progress: Progress::Pending(phase), listings }
}

/// The last step of a trade with `params`, after everything outside has
/// succeeded: the traded quantity leaves the listing. The listing is looked
/// at again, so that no more leaves it than it holds.
pub open spec fn settled(
    listings: Map<TokenOwnerInfo, TokenPriceState>,
    params: TransferParams,
) -> Step {
    match tradable(listings, params) {
        Err(error) => rejected(error, listings),
        Ok(_) => Step {
            progress: Progress::Done(Ok(())),
            listings: with_fewer(listings, trade_key(params), params.quantity),
        },
    }
}

impl Phase {
    /// The request whose answer this phase waits for.
    pub open spec fn spec_request(&self) -> Request {
        match *self {
            Phase::AddSupport { params, .. } => Request::Supports {
                ledger: params.cis_contract_address,
            },
            Phase::AddOperator { owner, exchange, ledger, .. } => Request::OperatorOf {
                ledger,
                owner: Address::Account(owner),
                operator: Address::Contract(exchange),
            },
            Phase::AddBalance { params, owner, ledger } => Request::BalanceOf {
                ledger,
                token_id: params.token_id,
                owner: Address::Account(owner),
            },
            Phase::BuySupport { params, .. } => Request::Supports {
                ledger: params.cis_contract_address,
            },
            Phase::BuyTransfer { params, exchange, ledger } => Request::Transfer {
                ledger,
                from: Address::Contract(exchange),
                to: Receiver::Account(params.to),
                token_id: params.token_id,
                amount: params.quantity,
            },
            Phase::SellSupport { params, .. } => Request::Supports {
                ledger: params.cis_contract_address,
            },
            Phase::SellTransfer { params, exchange, ledger, .. } => Request::Transfer {
                ledger,
                from: Address::Account(params.owner),
                to: Receiver::Contract(exchange, ESCROW_ENTRYPOINT),
                token_id: params.token_id,
                amount: params.quantity,
            },
            Phase::SellPayout { params, payout } => Request::Payout {
                to: params.owner,
                amount: payout,
            },
        }
    }

    /// The request whose answer this phase waits for.
    #[verifier::when_used_as_spec(spec_request)]
    pub fn request(&self) -> (request: Request)
        ensures
            request == self.spec_request(),
    {
        match *self {
            Phase::AddSupport { params, .. } => Request::Supports {
                ledger: params.cis_contract_address,
            },
            Phase::AddOperator { owner, exchange, ledger, .. } => Request::OperatorOf {
                ledger,
                owner: Address::Account(owner),
                operator: Address::Contract(exchange),
            },
            Phase::AddBalance { params, owner, ledger } => Request::BalanceOf {
                ledger,
                token_id: params.token_id,
                owner: Address::Account(owner),
            },
            Phase::BuySupport { params, .. } => Request::Supports {
                ledger: params.cis_contract_address,
            },
            Phase::BuyTransfer { params, exchange, ledger } => Request::Transfer {
                ledger,
                from: Address::Contract(exchange),
                to: Receiver::Account(params.to),
                token_id: params.token_id,
                amount: params.quantity,
            },
            Phase::SellSupport { params, .. } => Request::Supports {
                ledger: params.cis_contract_address,
            },
            Phase::SellTransfer { params, exchange, ledger, .. } => Request::Transfer {
                ledger,
                from: Address::Account(params.owner),
                to: Receiver::Contract(exchange, ESCROW_ENTRYPOINT),
                token_id: params.token_id,
                amount: params.quantity,
            },
            Phase::SellPayout { params, payout } => Request::Payout {
                to: params.owner,
                amount: calculate_amounts(&payout).to_primary_owner,
            },
        }
    }
}

/// How `add` starts: only an account can list, and the ledger is asked
/// first whether it implements the token standard.
pub open spec fn spec_add(sender: Address, exchange: ContractAddress, params: AddParams) -> Progress {
    match sender {
        Address::Contract(_) => Progress::Done(Err(DexError::CallerIsContract)),
        Address::Account(owner) => Progress::Pending(Phase::AddSupport { params, owner, exchange }),
    }
}

/// How `transfer` starts: the listing must exist, hold the quantity asked
/// for, and `amount` must cover its price; then the ledger is asked whether
/// it implements the token standard.
pub open spec fn spec_transfer(
    listings: Map<TokenOwnerInfo, TokenPriceState>,
    exchange: ContractAddress,
    amount: Amount,
    params: TransferParams,
) -> Progress {
    match tradable(listings, params) {
        Err(error) => Progress::Done(Err(error)),
        Ok(listing) => if amount < cost(listing.price, params.quantity) {
            Progress::Done(Err(DexError::UnderpaidRequest))
        } else {
            Progress::Pending(Phase::BuySupport { params, exchange })
        },
    }
}

/// How `transfer_cis2` starts: the listing must exist, hold the quantity
/// asked for, and `balance` must cover its price; then the ledger is asked
/// whether it implements the token standard.
pub open spec fn spec_transfer_cis2(
    listings: Map<TokenOwnerInfo, TokenPriceState>,
    exchange: ContractAddress,
    balance: Amount,
    params: TransferParams,
) -> Progress {
    match tradable(listings, params) {
        Err(error) => Progress::Done(Err(error)),
        Ok(listing) => if balance < cost(listing.price, params.quantity) {
            Progress::Done(Err(DexError::InsufficientContractFunds))
        } else {
            Progress::Pending(
                Phase::SellSupport {
                    params,
                    exchange,
                    payout: cost(listing.price, params.quantity) as Amount,
                },
            )
        },
    }
}

/// The step that an operation waiting in `phase` takes on `response`.
///
/// An answer that is not the success the phase waits for ends the operation
/// with the error of that phase, and the listings stay as they are. After
/// the last success `add` lists the tokens, and a trade takes the traded
/// quantity out of its listing.
pub open spec fn spec_resume(
    listings: Map<TokenOwnerInfo, TokenPriceState>,
    phase: Phase,
    response: Response,
) -> Step {
    match phase {
        Phase::AddSupport { params, owner, exchange } => match supported_ledger(
            response,
            params.cis_contract_address,
        ) {
            Err(error) => rejected(error, listings),
            Ok(ledger) => waiting(Phase::AddOperator { params, owner, exchange, ledger }, listings),
        },
        Phase::AddOperator { params, owner, exchange, ledger } => match confirmed_operator(
            response,
        ) {
            Err(error) => rejected(error, listings),
            Ok(_) => waiting(Phase::AddBalance { params, owner, ledger }, listings),
        },
        Phase::AddBalance { params, owner, ledger } => match sufficient_balance(
            response,
            params.quantity,
        ) {
            Err(error) => rejected(error, listings),
            Ok(_) => Step {
                progress: Progress::Done(Ok(())),
                listings: with_listing(
                    listings,
                    add_key(params, owner),
                    TokenPriceState { quantity: params.quantity, price: params.price },
                ),
            },
        },
        Phase::BuySupport { params, exchange } => match supported_ledger(
            response,
            params.cis_contract_address,
        ) {
            Err(error) => rejected(error, listings),
            Ok(ledger) => waiting(Phase::BuyTransfer { params, exchange, ledger }, listings),
        },
        Phase::BuyTransfer { params, exchange, ledger } => match confirmed_transfer(response) {
            Err(error) => rejected(error, listings),
            Ok(_) => settled(listings, params),
        },
        Phase::SellSupport { params, exchange, payout } => match supported_ledger(
            response,
            params.cis_contract_address,
        ) {
            Err(error) => rejected(error, listings),
            Ok(ledger) => waiting(Phase::SellTransfer { params, exchange, ledger, payout }, listings),
        },
        Phase::SellTransfer { params, exchange, ledger, payout } => match confirmed_transfer(
            response,
        ) {
            Err(error) => rejected(error, listings),
            Ok(_) => waiting(Phase::SellPayout { params, payout }, listings),
        },
        Phase::SellPayout { params, payout } => match confirmed_payout(response) {
            Err(error) => rejected(error, listings),
            Ok(_) => settled(listings, params),
        },
    }
}

/// Makes a new exchange without listings. The parameter is a hint of how
/// many listings to expect: whatever it is, the exchange starts empty.
pub fn init(_params: &InitParams) -> (state: Result<State, DexError>)
    ensures
        state matches Ok(state) && state@ == Map::<TokenOwnerInfo, TokenPriceState>::empty()
            && state.items() == Seq::<TokenListItem>::empty(),
{
    Ok(State::new())
}

/// Starts the listing of tokens by `sender` on the exchange at `exchange`.
pub fn add(sender: Address, exchange: ContractAddress, params: AddParams) -> (progress: Progress)
    ensures
        progress == spec_add(sender, exchange, params),
{
    match sender {
        Address::Account(owner) => Progress::Pending(Phase::AddSupport { params, owner, exchange }),
        Address::Contract(_) => Progress::Done(Err(DexError::CallerIsContract)),
    }
}

/// Finds the listing that a trade with `params` takes from.
fn listed(state: &State, params: &TransferParams) -> (listing: Result<TokenPriceState, DexError>)
    ensures
        listing == tradable(state@, *params),
{
    let token_info = TokenInfo { id: params.token_id, address: params.cis_contract_address };
    match state.get_token(&token_info, &params.owner) {
        None => Err(DexError::ListingNotFound),
        Some(listed_token) => {
            if listed_token.quantity < params.quantity {
                Err(DexError::InsufficientListedQuantity)
            } else {
                Ok(listed_token)
            }
        },
    }
}

/// The price of `quantity` units at `price_per_unit` each, if `funds` cover
/// it.
fn affordable(price_per_unit: Amount, quantity: ContractTokenAmount, funds: Amount) -> (price:
    Option<Amount>)
    ensures
        price == if funds < cost(price_per_unit, quantity) {
            None
        } else {
            Some(cost(price_per_unit, quantity) as Amount)
        },
{
    match price_per_unit.checked_mul(quantity) {
        None => None,
        Some(price) => {
            if funds < price {
                None
            } else {
                Some(price)
            }
        },
    }
}

/// Starts a purchase: the caller has attached `amount` of currency and wants
/// tokens that the exchange at `exchange` holds for a listing.
pub fn transfer(state: &State, exchange: ContractAddress, amount: Amount, params: TransferParams) -> (progress:
    Progress)
    ensures
        progress == spec_transfer(state@, exchange, amount, params),
{
    match listed(state, &params) {
        Err(error) => Progress::Done(Err(error)),
        Ok(listed_token) => match affordable(listed_token.price, params.quantity, amount) {
            None => Progress::Done(Err(DexError::UnderpaidRequest)),
            Some(_) => Progress::Pending(Phase::BuySupport { params, exchange }),
        },
    }
}

/// Starts a sale to the exchange: the owner's listed tokens go to the
/// exchange at `exchange`, which holds `balance` of currency and pays the
/// owner from it.
pub fn transfer_cis2(
    state: &State,
    exchange: ContractAddress,
    balance: Amount,
    params: TransferParams,
) -> (progress: Progress)
    ensures
        progress == spec_transfer_cis2(state@, exchange, balance, params),
{
    match listed(state, &params) {
        Err(error) => Progress::Done(Err(error)),
        Ok(listed_token) => match affordable(listed_token.price, params.quantity, balance) {
            None => Progress::Done(Err(DexError::InsufficientContractFunds)),
            Some(payout) => Progress::Pending(Phase::SellSupport { params, exchange, payout }),
        },
    }
}

/// Takes the traded quantity out of the listing, if the listing still holds
/// it.
fn settle(state: &mut State, params: &TransferParams) -> (progress: Progress)
    ensures
        progress == settled(old(state)@, *params).progress,
        final(state)@ == settled(old(state)@, *params).listings,
        final(state).items() == if tradable(old(state)@, *params) is Ok {
            old(state).items().map_values(
                |item: TokenListItem| item_with_fewer(item, trade_key(*params), params.quantity),
            )
        } else {
            old(state).items()
        },
{
    match listed(state, params) {
        Err(error) => Progress::Done(Err(error)),
        Ok(_) => {
            let token_info = TokenInfo { id: params.token_id, address: params.cis_contract_address };
            state.decrease_listed_quantity(
                &TokenOwnerInfo::from(token_info, &params.owner),
                params.quantity,
            );
            Progress::Done(Ok(()))
        },
    }
}

/// Takes the next step of the operation that waits in `phase`, now that
/// `response` has come.
pub fn resume(state: &mut State, phase: Phase, response: &Response) -> (progress: Progress)
    ensures
        progress == spec_resume(old(state)@, phase, *response).progress,
        final(state)@ == spec_resume(old(state)@, phase, *response).listings,
        progress != Progress::Done(Ok(())) ==> final(state).items() == old(state).items(),
{
    match phase {
        Phase::AddSupport { params, owner, exchange } => {
            match ensure_supports_cis2(response, &params.cis_contract_address) {
                Err(error) => Progress::Done(Err(error)),
                Ok(ledger) => Progress::Pending(
                    Phase::AddOperator { params, owner, exchange, ledger },
                ),
            }
        },
        Phase::AddOperator { params, owner, exchange, ledger } => {
            match ensure_is_operator(response) {
                Err(error) => Progress::Done(Err(error)),
                Ok(_) => Progress::Pending(Phase::AddBalance { params, owner, ledger }),
            }
        },
        Phase::AddBalance { params, owner, ledger } => {
            match ensure_balance(response, params.quantity) {
                Err(error) => Progress::Done(Err(error)),
                Ok(_) => {
                    let token_info = TokenInfo {
                        id: params.token_id,
                        address: params.cis_contract_address,
                    };
                    state.list_token(&token_info, &owner, params.price, params.quantity);
                    Progress::Done(Ok(()))
                },
            }
        },
        Phase::BuySupport { params, exchange } => {
            match ensure_supports_cis2(response, &params.cis_contract_address) {
                Err(error) => Progress::Done(Err(error)),
                Ok(ledger) => Progress::Pending(Phase::BuyTransfer { params, exchange, ledger }),
            }
        },
        Phase::BuyTransfer { params, exchange, ledger } => {
            match ensure_transferred(response) {
                Err(error) => Progress::Done(Err(error)),
                Ok(_) => settle(state, &params),
            }
        },
        Phase::SellSupport { params, exchange, payout } => {
            match ensure_supports_cis2(response, &params.cis_contract_address) {
                Err(error) => Progress::Done(Err(error)),
                Ok(ledger) => Progress::Pending(
                    Phase::SellTransfer { params, exchange, ledger, payout },
                ),
            }
        },
        Phase::SellTransfer { params, exchange, ledger, payout } => {
            match ensure_transferred(response) {
                Err(error) => Progress::Done(Err(error)),
                Ok(_) => Progress::Pending(Phase::SellPayout { params, payout }),
            }
        },
        Phase::SellPayout { params, payout } => {
            match ensure_paid_out(response) {
                Err(error) => Progress::Done(Err(error)),
                Ok(_) => settle(state, &params),
            }
        },
    }
}

/// Accepts the notice of a ledger that tokens have arrived at the exchange,
/// with whatever `amount` of currency is attached. Nothing is done with it.
pub fn receive_ccd(amount: Amount) -> (accepted: Result<(), DexError>)
    ensures
        accepted == Ok::<(), DexError>(()),
{
    Ok(())
}

/// The listings that still have units on offer, in the order in which the
/// store holds them.
pub fn list(state: &State) -> (tokens: TokenList)
    ensures
        tokens.0@ == state.items().filter(|item: TokenListItem| item.quantity > 0),
        forall|i: int| 0 <= i < tokens.0@.len() ==> (#[trigger] tokens.0@[i]).quantity > 0,
        reports(tokens.0@, on_offer(state@)),
{
    TokenList(state.list())
}

} // verus!
