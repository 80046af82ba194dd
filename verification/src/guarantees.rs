//! What holds of the exchange whatever the world outside answers.
//!
//! An operation is followed here from its start through the answers that it
//! is given, one after the other, to its end; and the exchange through the
//! calls that are made of it, one after the other.

use crate::address::{AccountAddress, Address, ContractAddress};
use crate::errors::DexError;
use crate::exchange::{
    add_key, cost, rejected, spec_add, spec_resume, spec_transfer, spec_transfer_cis2, tradable,
    trade_key, Phase, Progress, Step, ESCROW_ENTRYPOINT,
};
use crate::ledger::{
    confirmed_operator, confirmed_payout, confirmed_transfer, sufficient_balance,
    supported_ledger, Receiver, Request, Response, SupportResult,
};
use crate::parameter::{AddParams, TransferParams};
use crate::state::{with_fewer, with_listing, Amount, TokenOwnerInfo, TokenPriceState};
use vstd::prelude::*;

verus! {

/// Where an operation stands that stood at `progress` and has since been
/// given `answers`, each to the request that was open when it came. Answers
/// that come after the end of the operation are not looked at.
pub open spec fn run(
    listings: Map<TokenOwnerInfo, TokenPriceState>,
    progress: Progress,
    answers: Seq<Response>,
) -> Step
    decreases answers.len(),
{
    match progress {
        Progress::Done(_) => Step { progress, listings },
        Progress::Pending(phase) => if answers.len() == 0 {
            Step { progress, listings }
        } else {
            let step = spec_resume(listings, phase, answers[0]);
            run(step.listings, step.progress, answers.drop_first())
        },
    }
}

/// The requests that an operation makes that stands at `progress` and is
/// given `answers`: the open one, then one after each answer that does not
/// end the operation.
pub open spec fn requests(
    listings: Map<TokenOwnerInfo, TokenPriceState>,
    progress: Progress,
    answers: Seq<Response>,
) -> Seq<Request>
    decreases answers.len(),
{
    match progress {
        Progress::Done(_) => Seq::empty(),
        Progress::Pending(phase) => if answers.len() == 0 {
            seq![phase.spec_request()]
        } else {
            let step = spec_resume(listings, phase, answers[0]);
            seq![phase.spec_request()] + requests(
                step.listings,
                step.progress,
                answers.drop_first(),
            )
        },
    }
}

/// Whether `progress` is the successful end of an operation.
pub open spec fn succeeded(progress: Progress) -> bool {
    progress == Progress::Done(Ok(()))
}

/// The listing that `add` with `params` makes.
pub open spec fn added(params: AddParams) -> TokenPriceState {
    TokenPriceState { quantity: params.quantity, price: params.price }
}

/// A request that fails is not made again: the failure ends the operation,
/// with the error of a failed payout where currency was to be paid out and
/// with the error of a failed call to the ledger everywhere else. The
/// listings stay.
pub proof fn lemma_failure_ends_the_operation(
    listings: Map<TokenOwnerInfo, TokenPriceState>,
    phase: Phase,
)
    ensures
        spec_resume(listings, phase, Response::Failed) == rejected(
            if phase is SellPayout {
                DexError::CurrencyTransferFailed
            } else {
                DexError::LedgerCommunicationError
            },
            listings,
        ),
{
}

/// Only success changes the listings. An operation that has not ended with
/// success, whatever it was answered, has left the listings as they were.
pub proof fn lemma_rejection_changes_nothing(
    listings: Map<TokenOwnerInfo, TokenPriceState>,
    progress: Progress,
    answers: Seq<Response>,
)
    ensures
        !succeeded(run(listings, progress, answers).progress) ==> run(
            listings,
            progress,
            answers,
        ).listings == listings,
    decreases answers.len(),
{
    if let Progress::Pending(phase) = progress {
        if answers.len() > 0 {
            let step = spec_resume(listings, phase, answers[0]);
            if succeeded(step.progress) {
                assert(run(step.listings, step.progress, answers.drop_first()) == step);
            } else {
                assert(step.listings == listings);
                lemma_rejection_changes_nothing(listings, step.progress, answers.drop_first());
            }
        }
    }
}

/// A listing is made once. Listing again under the same key, at whatever
/// price and quantity, changes nothing: the key keeps the values of the
/// first listing, and no second listing appears.
pub proof fn lemma_first_listing_stays(
    listings: Map<TokenOwnerInfo, TokenPriceState>,
    key: TokenOwnerInfo,
    first: TokenPriceState,
    second: TokenPriceState,
)
    ensures
        with_listing(with_listing(listings, key, first), key, second) == with_listing(
            listings,
            key,
            first,
        ),
        with_listing(listings, key, first).dom() == listings.dom().insert(key),
        !listings.contains_key(key) ==> with_listing(listings, key, first)[key] == first,
        listings.contains_key(key) ==> with_listing(listings, key, first) == listings,
{
    assert(with_listing(listings, key, first).dom() =~= listings.dom().insert(key));
}

/// Whether `progress` belongs to an `add` of `owner` with `params` that has
/// not ended with success.
pub open spec fn adding(progress: Progress, params: AddParams, owner: AccountAddress) -> bool {
    match progress {
        Progress::Done(outcome) => outcome is Err,
        Progress::Pending(phase) => match phase {
            Phase::AddSupport { params: listed, owner: lister, .. } => listed == params && lister
                == owner,
            Phase::AddOperator { params: listed, owner: lister, .. } => listed == params && lister
                == owner,
            Phase::AddBalance { params: listed, owner: lister, .. } => listed == params && lister
                == owner,
            _ => false,
        },
    }
}

/// An `add` changes the listings only when it ends with success, and then by
/// the listing of its owner, if the owner had none.
pub proof fn lemma_add_lists_once(
    listings: Map<TokenOwnerInfo, TokenPriceState>,
    progress: Progress,
    params: AddParams,
    owner: AccountAddress,
    answers: Seq<Response>,
)
    requires
        adding(progress, params, owner),
    ensures
        succeeded(run(listings, progress, answers).progress) ==> run(
            listings,
            progress,
            answers,
        ).listings == with_listing(listings, add_key(params, owner), added(params)),
        !succeeded(run(listings, progress, answers).progress) ==> run(
            listings,
            progress,
            answers,
        ).listings == listings,
    decreases answers.len(),
{
    if let Progress::Pending(phase) = progress {
        if answers.len() > 0 {
            let step = spec_resume(listings, phase, answers[0]);
            if succeeded(step.progress) {
                assert(run(step.listings, step.progress, answers.drop_first()) == step);
            } else {
                assert(step.listings == listings);
                assert(adding(step.progress, params, owner));
                lemma_add_lists_once(listings, step.progress, params, owner, answers.drop_first());
            }
        }
    }
}

/// Adding twice is adding once. After an `add` that succeeded, a second
/// `add` of the same sender for the same token on the same ledger, at
/// whatever price and quantity and whatever it is answered, leaves the
/// listings as the first left them: with one listing under the key, which
/// holds the values of the first call if the key was free before.
pub proof fn lemma_add_twice(
    listings: Map<TokenOwnerInfo, TokenPriceState>,
    sender: Address,
    exchange: ContractAddress,
    first: AddParams,
    second: AddParams,
    first_answers: Seq<Response>,
    second_answers: Seq<Response>,
)
    requires
        first.token_id == second.token_id,
        first.cis_contract_address == second.cis_contract_address,
        succeeded(run(listings, spec_add(sender, exchange, first), first_answers).progress),
    ensures
        ({
            let once = run(listings, spec_add(sender, exchange, first), first_answers).listings;
            let twice = run(once, spec_add(sender, exchange, second), second_answers).listings;
            &&& sender matches Address::Account(owner)
            &&& twice == once
            &&& once.dom() == listings.dom().insert(add_key(first, owner))
            &&& !listings.contains_key(add_key(first, owner)) ==> once[add_key(first, owner)]
                == added(first)
        }),
{
    let owner = sender->Account_0;
    let key = add_key(first, owner);
    lemma_add_lists_once(listings, spec_add(sender, exchange, first), first, owner, first_answers);
    let once = run(listings, spec_add(sender, exchange, first), first_answers).listings;
    lemma_add_lists_once(once, spec_add(sender, exchange, second), second, owner, second_answers);
    lemma_first_listing_stays(listings, key, added(first), added(second));
    assert(add_key(second, owner) == key);
}

/// Listing moves nothing. An `add` only asks questions: whatever it is
/// answered, it asks for no transfer of tokens and for no payout.
pub proof fn lemma_add_moves_nothing(
    listings: Map<TokenOwnerInfo, TokenPriceState>,
    progress: Progress,
    params: AddParams,
    owner: AccountAddress,
    answers: Seq<Response>,
)
    requires
        adding(progress, params, owner),
    ensures
        forall|i: int|
            0 <= i < requests(listings, progress, answers).len() ==> !(#[trigger] requests(
                listings,
                progress,
                answers,
            )[i] is Transfer) && !(requests(listings, progress, answers)[i] is Payout),
    decreases answers.len(),
{
    if let Progress::Pending(phase) = progress {
        if answers.len() > 0 {
            let step = spec_resume(listings, phase, answers[0]);
            if !succeeded(step.progress) {
                lemma_add_moves_nothing(
                    step.listings,
                    step.progress,
                    params,
                    owner,
                    answers.drop_first(),
                );
            }
        }
    }
}

/// How `add` ends when it gets all its three answers: it succeeds exactly
/// when the sender is an account, the ledger supports the standard, the
/// exchange is an operator of the sender and the sender holds the quantity;
/// the first of these that fails gives the error. Only success changes the
/// listings, by the listing of the sender if the sender had none.
pub proof fn lemma_add_outcome(
    listings: Map<TokenOwnerInfo, TokenPriceState>,
    sender: Address,
    exchange: ContractAddress,
    params: AddParams,
    support: Response,
    operator: Response,
    balance: Response,
)
    ensures
        run(listings, spec_add(sender, exchange, params), seq![support, operator, balance])
            == match sender {
            Address::Contract(_) => rejected(DexError::CallerIsContract, listings),
            Address::Account(owner) => match supported_ledger(support, params.cis_contract_address) {
                Err(error) => rejected(error, listings),
                Ok(_) => match confirmed_operator(operator) {
                    Err(error) => rejected(error, listings),
                    Ok(_) => match sufficient_balance(balance, params.quantity) {
                        Err(error) => rejected(error, listings),
                        Ok(_) => Step {
                            progress: Progress::Done(Ok(())),
                            listings: with_listing(listings, add_key(params, owner), added(params)),
                        },
                    },
                },
            },
        },
{
    let answers = seq![support, operator, balance];
    let once = answers.drop_first();
    let twice = once.drop_first();
    assert(answers[0] == support);
    assert(once[0] == operator);
    assert(twice[0] == balance);
    assert(twice.drop_first().len() == 0);
    reveal_with_fuel(run, 4);
}

/// How `transfer` ends when it gets both its answers: it succeeds exactly
/// when the listing exists and holds the quantity, `amount` covers the
/// price, the ledger supports the standard and the tokens have moved; the
/// first of these that fails gives the error. Only success changes the
/// listings: the quantity leaves the listing.
pub proof fn lemma_transfer_outcome(
    listings: Map<TokenOwnerInfo, TokenPriceState>,
    exchange: ContractAddress,
    amount: Amount,
    params: TransferParams,
    support: Response,
    moved: Response,
)
    ensures
        run(listings, spec_transfer(listings, exchange, amount, params), seq![support, moved])
            == match tradable(listings, params) {
            Err(error) => rejected(error, listings),
            Ok(listing) => if amount < cost(listing.price, params.quantity) {
                rejected(DexError::UnderpaidRequest, listings)
            } else {
                match supported_ledger(support, params.cis_contract_address) {
                    Err(error) => rejected(error, listings),
                    Ok(_) => match confirmed_transfer(moved) {
                        Err(error) => rejected(error, listings),
                        Ok(_) => Step {
                            progress: Progress::Done(Ok(())),
                            listings: with_fewer(listings, trade_key(params), params.quantity),
                        },
                    },
                }
            },
        },
{
    let answers = seq![support, moved];
    let once = answers.drop_first();
    assert(answers[0] == support);
    assert(once[0] == moved);
    assert(once.drop_first().len() == 0);
    reveal_with_fuel(run, 3);
}

/// How `transfer_cis2` ends when it gets all its three answers: it succeeds
/// exactly when the listing exists and holds the quantity, `balance` covers
/// the price, the ledger supports the standard, the tokens have moved and
/// the currency has been paid out; the first of these that fails gives the
/// error. Only success changes the listings: the quantity leaves the
/// listing.
pub proof fn lemma_transfer_cis2_outcome(
    listings: Map<TokenOwnerInfo, TokenPriceState>,
    exchange: ContractAddress,
    balance: Amount,
    params: TransferParams,
    support: Response,
    moved: Response,
    paid: Response,
)
    ensures
        run(
            listings,
            spec_transfer_cis2(listings, exchange, balance, params),
            seq![support, moved, paid],
        ) == match tradable(listings, params) {
            Err(error) => rejected(error, listings),
            Ok(listing) => if balance < cost(listing.price, params.quantity) {
                rejected(DexError::InsufficientContractFunds, listings)
            } else {
                match supported_ledger(support, params.cis_contract_address) {
                    Err(error) => rejected(error, listings),
                    Ok(_) => match confirmed_transfer(moved) {
                        Err(error) => rejected(error, listings),
                        Ok(_) => match confirmed_payout(paid) {
                            Err(error) => rejected(error, listings),
                            Ok(_) => Step {
                                progress: Progress::Done(Ok(())),
                                listings: with_fewer(listings, trade_key(params), params.quantity),
                            },
                        },
                    },
                }
            },
        },
{
    let answers = seq![support, moved, paid];
    let once = answers.drop_first();
    let twice = once.drop_first();
    assert(answers[0] == support);
    assert(once[0] == moved);
    assert(twice[0] == paid);
    assert(twice.drop_first().len() == 0);
    reveal_with_fuel(run, 4);
}

/// A payout that fails comes after the tokens have moved. Where a
/// `transfer_cis2` got as far as the payout and the payout fails, the call
/// ends with the error of a failed payout and leaves the listings as they
/// were; but the transfer of the tokens from the owner to the exchange was
/// asked for before, and has been made.
pub proof fn lemma_failed_payout_leaves_tokens_moved(
    listings: Map<TokenOwnerInfo, TokenPriceState>,
    exchange: ContractAddress,
    balance: Amount,
    params: TransferParams,
    support: Response,
    paid: Response,
)
    requires
        tradable(listings, params) is Ok,
        balance >= cost(listings[trade_key(params)].price, params.quantity),
        supported_ledger(support, params.cis_contract_address) is Ok,
        !(paid is PaidOut),
    ensures
        run(
            listings,
            spec_transfer_cis2(listings, exchange, balance, params),
            seq![support, Response::Transferred, paid],
        ) == rejected(DexError::CurrencyTransferFailed, listings),
        requests(
            listings,
            spec_transfer_cis2(listings, exchange, balance, params),
            seq![support, Response::Transferred, paid],
        ) == seq![
            Request::Supports { ledger: params.cis_contract_address },
            Request::Transfer {
                ledger: supported_ledger(support, params.cis_contract_address)->Ok_0,
                from: Address::Account(params.owner),
                to: Receiver::Contract(exchange, ESCROW_ENTRYPOINT),
                token_id: params.token_id,
                amount: params.quantity,
            },
            Request::Payout {
                to: params.owner,
                amount: cost(listings[trade_key(params)].price, params.quantity) as Amount,
            },
        ],
{
    let answers = seq![support, Response::Transferred, paid];
    let once = answers.drop_first();
    let twice = once.drop_first();
    assert(answers[0] == support);
    assert(once[0] == Response::Transferred);
    assert(twice[0] == paid);
    assert(twice.drop_first().len() == 0);
    reveal_with_fuel(run, 4);
    reveal_with_fuel(requests, 4);
    let made = requests(
        listings,
        spec_transfer_cis2(listings, exchange, balance, params),
        answers,
    );
    assert(made.len() == 3);
    assert(made =~= seq![made[0], made[1], made[2]]);
}

/// Whether `progress` belongs to a trade with `params` that has not ended
/// with success.
pub open spec fn trading(progress: Progress, params: TransferParams) -> bool {
    match progress {
        Progress::Done(outcome) => outcome is Err,
        Progress::Pending(phase) => match phase {
            Phase::BuySupport { params: traded, .. } => traded == params,
            Phase::BuyTransfer { params: traded, .. } => traded == params,
            Phase::SellSupport { params: traded, .. } => traded == params,
            Phase::SellTransfer { params: traded, .. } => traded == params,
            Phase::SellPayout { params: traded, .. } => traded == params,
            _ => false,
        },
    }
}

/// A trade changes the listings only when it ends with success, and then
/// by exactly the traded quantity, which the listing held.
pub proof fn lemma_trade_takes_its_quantity(
    listings: Map<TokenOwnerInfo, TokenPriceState>,
    progress: Progress,
    params: TransferParams,
    answers: Seq<Response>,
)
    requires
        trading(progress, params),
    ensures
        succeeded(run(listings, progress, answers).progress) ==> tradable(listings, params) is Ok
            && run(listings, progress, answers).listings == with_fewer(
            listings,
            trade_key(params),
            params.quantity,
        ),
        !succeeded(run(listings, progress, answers).progress) ==> run(
            listings,
            progress,
            answers,
        ).listings == listings,
    decreases answers.len(),
{
    if let Progress::Pending(phase) = progress {
        if answers.len() > 0 {
            let step = spec_resume(listings, phase, answers[0]);
            if succeeded(step.progress) {
                assert(run(step.listings, step.progress, answers.drop_first()) == step);
            } else {
                assert(step.listings == listings);
                assert(trading(step.progress, params));
                lemma_trade_takes_its_quantity(listings, step.progress, params, answers.drop_first());
            }
        }
    }
}

/// Whether `progress` belongs to a purchase that has not ended with
/// success.
pub open spec fn buying(progress: Progress) -> bool {
    match progress {
        Progress::Done(outcome) => outcome is Err,
        Progress::Pending(phase) => phase is BuySupport || phase is BuyTransfer,
    }
}

/// A purchase pays nothing out. Whatever a `transfer` is answered, it asks
/// for no payout: the currency that was attached to it stays with the
/// exchange.
pub proof fn lemma_purchase_pays_nothing_out(
    listings: Map<TokenOwnerInfo, TokenPriceState>,
    progress: Progress,
    answers: Seq<Response>,
)
    requires
        buying(progress),
    ensures
        forall|i: int|
            0 <= i < requests(listings, progress, answers).len() ==> !(#[trigger] requests(
                listings,
                progress,
                answers,
            )[i] is Payout),
    decreases answers.len(),
{
    if let Progress::Pending(phase) = progress {
        if answers.len() > 0 {
            let step = spec_resume(listings, phase, answers[0]);
            if !succeeded(step.progress) {
                lemma_purchase_pays_nothing_out(step.listings, step.progress, answers.drop_first());
            }
        }
    }
}

/// Every operation starts as it goes on: an `add` of an account as an
/// `add` of that account with its parameters, a trade as a trade with its
/// parameters, and a `transfer` as a purchase.
pub proof fn lemma_starts(
    listings: Map<TokenOwnerInfo, TokenPriceState>,
    owner: AccountAddress,
    exchange: ContractAddress,
    funds: Amount,
    listing: AddParams,
    trade: TransferParams,
)
    ensures
        adding(spec_add(Address::Account(owner), exchange, listing), listing, owner),
        trading(spec_transfer(listings, exchange, funds, trade), trade),
        trading(spec_transfer_cis2(listings, exchange, funds, trade), trade),
        buying(spec_transfer(listings, exchange, funds, trade)),
{
}

/// One call of the exchange.
#[allow(inconsistent_fields)]
pub ghost enum Call {
    /// A call of `add` by `sender`.
    Add { sender: Address, exchange: ContractAddress, params: AddParams },
    /// A call of `transfer` with `funds` attached.
    Transfer { exchange: ContractAddress, funds: Amount, params: TransferParams },
    /// A call of `transfer_cis2` while the exchange holds `funds`.
    TransferCis2 { exchange: ContractAddress, funds: Amount, params: TransferParams },
}

/// One call of the exchange with the answers that the world outside gives to
/// it, in their order.
pub ghost struct Invocation {
    pub call: Call,
    pub answers: Seq<Response>,
}

impl Invocation {
    /// How the call starts on `listings`.
    pub open spec fn start(self, listings: Map<TokenOwnerInfo, TokenPriceState>) -> Progress {
        match self.call {
            Call::Add { sender, exchange, params } => spec_add(sender, exchange, params),
            Call::Transfer { exchange, funds, params } => spec_transfer(
                listings,
                exchange,
                funds,
                params,
            ),
            Call::TransferCis2 { exchange, funds, params } => spec_transfer_cis2(
                listings,
                exchange,
                funds,
                params,
            ),
        }
    }

    /// How the call ends on `listings`.
    pub open spec fn end(self, listings: Map<TokenOwnerInfo, TokenPriceState>) -> Step {
        run(listings, self.start(listings), self.answers)
    }

    /// How many units of the listing under `key` the call transfers on
    /// `listings`: the quantity of a trade of that listing that ends with
    /// success, and nothing else.
    pub open spec fn transfers(
        self,
        listings: Map<TokenOwnerInfo, TokenPriceState>,
        key: TokenOwnerInfo,
    ) -> int {
        match self.call {
            Call::Add { .. } => 0,
            Call::Transfer { params, .. } | Call::TransferCis2 { params, .. } => if trade_key(params)
                == key && succeeded(self.end(listings).progress) {
                params.quantity as int
            } else {
                0
            },
        }
    }
}

/// The listings after the calls `invocations`, made one after the other.
pub open spec fn after_all(
    listings: Map<TokenOwnerInfo, TokenPriceState>,
    invocations: Seq<Invocation>,
) -> Map<TokenOwnerInfo, TokenPriceState>
    decreases invocations.len(),
{
    if invocations.len() == 0 {
        listings
    } else {
        invocations.last().end(after_all(listings, invocations.drop_last())).listings
    }
}

/// How many units of the listing under `key` the calls `invocations`, made
/// one after the other, have transferred.
pub open spec fn transferred(
    listings: Map<TokenOwnerInfo, TokenPriceState>,
    invocations: Seq<Invocation>,
    key: TokenOwnerInfo,
) -> int
    decreases invocations.len(),
{
    if invocations.len() == 0 {
        0
    } else {
        transferred(listings, invocations.drop_last(), key) + invocations.last().transfers(
            after_all(listings, invocations.drop_last()),
            key,
        )
    }
}

/// No listing is oversold. Whatever calls are made of the exchange, and
/// whatever they are answered: a listing stays, keeps its price, and what
/// has been transferred from it and what it still holds add up to what it
/// held at first. So never more is transferred than was listed.
pub proof fn lemma_no_overselling(
    listings: Map<TokenOwnerInfo, TokenPriceState>,
    invocations: Seq<Invocation>,
    key: TokenOwnerInfo,
)
    requires
        listings.contains_key(key),
    ensures
        after_all(listings, invocations).contains_key(key),
        after_all(listings, invocations)[key].price == listings[key].price,
        transferred(listings, invocations, key) + after_all(listings, invocations)[key].quantity
            == listings[key].quantity,
        0 <= transferred(listings, invocations, key) <= listings[key].quantity,
    decreases invocations.len(),
{
    if invocations.len() > 0 {
        let earlier = invocations.drop_last();
        let last = invocations.last();
        let before = after_all(listings, earlier);
        lemma_no_overselling(listings, earlier, key);
        match last.call {
            Call::Add { sender, exchange, params } => {
                if let Address::Account(owner) = sender {
                    lemma_add_lists_once(before, last.start(before), params, owner, last.answers);
                }
            },
            Call::Transfer { params, .. } => {
                lemma_trade_takes_its_quantity(before, last.start(before), params, last.answers);
            },
            Call::TransferCis2 { params, .. } => {
                lemma_trade_takes_its_quantity(before, last.start(before), params, last.answers);
            },
        }
    }
}

/// A purchase that is not paid for moves nothing. Where the listing exists
/// and holds the quantity asked for, a `transfer` with less currency than
/// price times quantity ends at once as underpaid: it makes no request, so
/// no token moves, and the listings stay.
pub proof fn lemma_underpaid_transfer_moves_nothing(
    listings: Map<TokenOwnerInfo, TokenPriceState>,
    exchange: ContractAddress,
    amount: Amount,
    params: TransferParams,
    answers: Seq<Response>,
)
    requires
        tradable(listings, params) is Ok,
        amount < cost(listings[trade_key(params)].price, params.quantity),
    ensures
        spec_transfer(listings, exchange, amount, params) == Progress::Done(
            Err(DexError::UnderpaidRequest),
        ),
        run(listings, spec_transfer(listings, exchange, amount, params), answers) == rejected(
            DexError::UnderpaidRequest,
            listings,
        ),
        requests(listings, spec_transfer(listings, exchange, amount, params), answers)
            == Seq::<Request>::empty(),
{
}

/// A `transfer` with less currency than the price of what it asks for never
/// succeeds and makes no request, whether or not there is such a listing.
pub proof fn lemma_unpaid_transfer_fails(
    listings: Map<TokenOwnerInfo, TokenPriceState>,
    exchange: ContractAddress,
    amount: Amount,
    params: TransferParams,
    answers: Seq<Response>,
)
    requires
        listings.contains_key(trade_key(params)) ==> amount < cost(
            listings[trade_key(params)].price,
            params.quantity,
        ),
    ensures
        spec_transfer(listings, exchange, amount, params) matches Progress::Done(Err(_)),
        run(listings, spec_transfer(listings, exchange, amount, params), answers).listings
            == listings,
        requests(listings, spec_transfer(listings, exchange, amount, params), answers)
            == Seq::<Request>::empty(),
{
}

/// Whether `progress` is the start of an operation that asks the ledger
/// `ledger` first whether it implements the token standard.
pub open spec fn asks_for_support(progress: Progress, ledger: ContractAddress) -> bool {
    progress matches Progress::Pending(phase) && phase.spec_request() == (Request::Supports {
        ledger,
    })
}

/// Every operation that turns to the ledger asks it first whether it
/// implements the token standard.
pub proof fn lemma_support_is_asked_first(
    listings: Map<TokenOwnerInfo, TokenPriceState>,
    sender: Address,
    exchange: ContractAddress,
    funds: Amount,
    listing: AddParams,
    trade: TransferParams,
)
    ensures
        spec_add(sender, exchange, listing) is Pending ==> asks_for_support(
            spec_add(sender, exchange, listing),
            listing.cis_contract_address,
        ),
        spec_transfer(listings, exchange, funds, trade) is Pending ==> asks_for_support(
            spec_transfer(listings, exchange, funds, trade),
            trade.cis_contract_address,
        ),
        spec_transfer_cis2(listings, exchange, funds, trade) is Pending ==> asks_for_support(
            spec_transfer_cis2(listings, exchange, funds, trade),
            trade.cis_contract_address,
        ),
{
}

/// A ledger without support is rejected. An operation that asks a ledger
/// whether it implements the token standard and is told that it does not
/// ends with that error: it asks nothing more, and the listings stay.
pub proof fn lemma_unsupported_ledger_is_rejected(
    listings: Map<TokenOwnerInfo, TokenPriceState>,
    start: Progress,
    ledger: ContractAddress,
    answers: Seq<Response>,
)
    requires
        asks_for_support(start, ledger),
        answers.len() > 0,
        answers[0] == Response::Supports(SupportResult::NoSupport),
    ensures
        run(listings, start, answers) == rejected(DexError::CollectionNotSupported, listings),
        requests(listings, start, answers) == seq![Request::Supports { ledger }],
{
    let phase = start->Pending_0;
    let step = spec_resume(listings, phase, answers[0]);
    assert(step == rejected(DexError::CollectionNotSupported, listings));
    assert(run(step.listings, step.progress, answers.drop_first()) == step);
    assert(requests(step.listings, step.progress, answers.drop_first()) == Seq::<Request>::empty());
    assert(seq![phase.spec_request()] + Seq::<Request>::empty() =~= seq![
        Request::Supports { ledger },
    ]);
}

} // verus!
