#![allow(deprecated)]

use cis2_market::address::{AccountAddress, Address, ContractAddress};
use cis2_market::errors::DexError;
use cis2_market::exchange::{resume, Progress};
use cis2_market::ledger::{Receiver, Request, Response, SupportResult};
use cis2_market::parameter::{AddParams, TransferParams};
use cis2_market::state::{State, TokenInfo, TokenPriceState};
use concordium_cis2::{
    AdditionalData, BalanceOfQueryResponse, Cis2Client, Cis2ClientError, OperatorOfQueryResponse,
    SupportsQueryResponse, TokenAmountU64, TokenIdU8, Transfer,
};
use concordium_std::test_infrastructure::{MockFn, TestHost, TestStateBuilder};
use concordium_std::{Amount, CallContractError, HasHost, OwnedEntrypointName};
use std::cell::Cell;
use std::rc::Rc;

const ACCOUNT_0: AccountAddress = AccountAddress([0u8; 32]);
const ACCOUNT_1: AccountAddress = AccountAddress([1u8; 32]);
const CIS_CONTRACT_ADDRESS: ContractAddress = ContractAddress { index: 1, subindex: 0 };
const MARKET_CONTRACT_ADDRESS: ContractAddress = ContractAddress { index: 2, subindex: 0 };

fn chain_account(account: AccountAddress) -> concordium_std::AccountAddress {
    concordium_std::AccountAddress(account.0)
}

fn chain_contract(contract: ContractAddress) -> concordium_std::ContractAddress {
    concordium_std::ContractAddress { index: contract.index, subindex: contract.subindex }
}

fn chain_address(address: Address) -> concordium_std::Address {
    match address {
        Address::Account(account) => concordium_std::Address::Account(chain_account(account)),
        Address::Contract(contract) => concordium_std::Address::Contract(chain_contract(contract)),
    }
}

fn chain_receiver(receiver: Receiver) -> concordium_cis2::Receiver {
    match receiver {
        Receiver::Account(account) => concordium_cis2::Receiver::Account(chain_account(account)),
        Receiver::Contract(contract, entrypoint) => concordium_cis2::Receiver::Contract(
            chain_contract(contract),
            OwnedEntrypointName::new(entrypoint.to_string()).unwrap(),
        ),
    }
}

fn plain_support(result: concordium_cis2::SupportResult) -> SupportResult {
    match result {
        concordium_cis2::SupportResult::NoSupport => SupportResult::NoSupport,
        concordium_cis2::SupportResult::Support => SupportResult::Support,
        concordium_cis2::SupportResult::SupportBy(contracts) => SupportResult::SupportBy(
            contracts
                .iter()
                .map(|contract| ContractAddress {
                    index: contract.index,
                    subindex: contract.subindex,
                })
                .collect(),
        ),
    }
}

/// Performs one request of the exchange on the host, through the client of
/// the token standard.
fn perform(host: &mut TestHost<()>, request: &Request) -> Response {
    match *request {
        Request::Supports { ledger } => {
            let answer: Result<concordium_cis2::SupportResult, Cis2ClientError<()>> =
                Cis2Client::new(chain_contract(ledger)).supports_cis2(host);
            match answer {
                Ok(result) => Response::Supports(plain_support(result)),
                Err(_) => Response::Failed,
            }
        }
        Request::OperatorOf { ledger, owner, operator } => {
            let answer: Result<bool, Cis2ClientError<()>> = Cis2Client::new(chain_contract(ledger))
                .operator_of(host, chain_address(owner), chain_address(operator));
            match answer {
                Ok(is_operator) => Response::OperatorOf(is_operator),
                Err(_) => Response::Failed,
            }
        }
        Request::BalanceOf { ledger, token_id, owner } => {
            let answer: Result<TokenAmountU64, Cis2ClientError<()>> =
                Cis2Client::new(chain_contract(ledger)).balance_of(
                    host,
                    TokenIdU8(token_id),
                    chain_address(owner),
                );
            match answer {
                Ok(balance) => Response::BalanceOf(balance.0),
                Err(_) => Response::Failed,
            }
        }
        Request::Transfer { ledger, from, to, token_id, amount } => {
            let answer: Result<bool, Cis2ClientError<()>> = Cis2Client::new(chain_contract(ledger))
                .transfer(
                    host,
                    Transfer {
                        token_id: TokenIdU8(token_id),
                        amount: TokenAmountU64(amount),
                        from: chain_address(from),
                        to: chain_receiver(to),
                        data: AdditionalData::empty(),
                    },
                );
            match answer {
                Ok(_) => Response::Transferred,
                Err(_) => Response::Failed,
            }
        }
        Request::Payout { to, amount } => {
            match host.invoke_transfer(&chain_account(to), Amount::from_micro_ccd(amount)) {
                Ok(()) => Response::PaidOut,
                Err(_) => Response::Failed,
            }
        }
    }
}

/// Runs an operation to its end, each request performed on the host.
fn finish(state: &mut State, host: &mut TestHost<()>, start: Progress) -> Result<(), DexError> {
    let mut progress = start;
    loop {
        match progress {
            Progress::Done(outcome) => return outcome,
            Progress::Pending(phase) => {
                let response = perform(host, &phase.request());
                progress = resume(state, phase, &response);
            }
        }
    }
}

fn entrypoint(name: &str) -> OwnedEntrypointName {
    OwnedEntrypointName::new_unchecked(name.to_string())
}

/// A host on which the ledger supports the standard, confirms every
/// operator, reports `balance` for every owner, and counts the transfers of
/// tokens that it makes.
fn host_with_ledger(balance: u64) -> (TestHost<()>, Rc<Cell<u32>>) {
    let mut host = TestHost::new((), TestStateBuilder::new());
    host.set_self_address(chain_contract(MARKET_CONTRACT_ADDRESS));
    let ledger = chain_contract(CIS_CONTRACT_ADDRESS);
    host.setup_mock_entrypoint(
        ledger,
        entrypoint("supports"),
        MockFn::new_v1(|_, _, _, _| {
            Ok((
                false,
                SupportsQueryResponse { results: vec![concordium_cis2::SupportResult::Support] },
            ))
        }),
    );
    host.setup_mock_entrypoint(
        ledger,
        entrypoint("operatorOf"),
        MockFn::new_v1(|_, _, _, _| Ok((false, OperatorOfQueryResponse(vec![true])))),
    );
    host.setup_mock_entrypoint(
        ledger,
        entrypoint("balanceOf"),
        MockFn::new_v1(move |_, _, _, _| {
            Ok((false, BalanceOfQueryResponse(vec![TokenAmountU64(balance)])))
        }),
    );
    let moved = Rc::new(Cell::new(0u32));
    let counter = moved.clone();
    host.setup_mock_entrypoint(
        ledger,
        entrypoint("transfer"),
        MockFn::new_v1(move |_, _, _, _| {
            counter.set(counter.get() + 1);
            Ok((false, ()))
        }),
    );
    (host, moved)
}

fn token() -> TokenInfo {
    TokenInfo { id: 1, address: CIS_CONTRACT_ADDRESS }
}

fn trade(quantity: u64) -> TransferParams {
    TransferParams {
        cis_contract_address: CIS_CONTRACT_ADDRESS,
        token_id: 1,
        to: ACCOUNT_1,
        owner: ACCOUNT_0,
        quantity,
    }
}

#[test]
fn should_add_token() {
    let token_id_1: u8 = 1;
    let token_quantity_1: u64 = 1;
    let price: u64 = Amount::from_ccd(1).micro_ccd;

    let add_params = AddParams {
        cis_contract_address: CIS_CONTRACT_ADDRESS,
        price,
        token_id: token_id_1,
        quantity: token_quantity_1,
    };

    let mut state = State::new();
    let (mut host, _) = host_with_ledger(1);

    let start =
        cis2_market::exchange::add(Address::Account(ACCOUNT_0), MARKET_CONTRACT_ADDRESS, add_params);
    let res = finish(&mut state, &mut host, start);

    assert!(res.is_ok(), "Results in rejection");
    assert!(state.entries().iter().count() != 0, "Token not added");

    let token_list_tuple = state
        .get_token(&TokenInfo { id: token_id_1, address: CIS_CONTRACT_ADDRESS }, &ACCOUNT_0)
        .expect("Should not be None");

    assert_eq!(token_list_tuple, TokenPriceState { price, quantity: token_quantity_1 });
}

#[test]
fn add_and_purchase_on_a_host() {
    let mut state = State::new();
    let (mut host, moved) = host_with_ledger(5);
    let add_params =
        AddParams { cis_contract_address: CIS_CONTRACT_ADDRESS, token_id: 1, price: 100, quantity: 5 };
    let start =
        cis2_market::exchange::add(Address::Account(ACCOUNT_0), MARKET_CONTRACT_ADDRESS, add_params);
    assert_eq!(finish(&mut state, &mut host, start), Ok(()));
    assert_eq!(
        state.get_token(&token(), &ACCOUNT_0),
        Some(TokenPriceState { quantity: 5, price: 100 })
    );

    let start = cis2_market::exchange::transfer(&state, MARKET_CONTRACT_ADDRESS, 299, trade(3));
    assert_eq!(finish(&mut state, &mut host, start), Err(DexError::UnderpaidRequest));
    assert_eq!(moved.get(), 0);

    let start = cis2_market::exchange::transfer(&state, MARKET_CONTRACT_ADDRESS, 300, trade(3));
    assert_eq!(finish(&mut state, &mut host, start), Ok(()));
    assert_eq!(moved.get(), 1);
    assert_eq!(
        state.get_token(&token(), &ACCOUNT_0),
        Some(TokenPriceState { quantity: 2, price: 100 })
    );
}

#[test]
fn add_needs_the_balance_on_the_host() {
    let mut state = State::new();
    let (mut host, _) = host_with_ledger(4);
    let add_params =
        AddParams { cis_contract_address: CIS_CONTRACT_ADDRESS, token_id: 1, price: 100, quantity: 5 };
    let start =
        cis2_market::exchange::add(Address::Account(ACCOUNT_0), MARKET_CONTRACT_ADDRESS, add_params);
    assert_eq!(finish(&mut state, &mut host, start), Err(DexError::InsufficientExternalBalance));
    assert!(state.entries().is_empty());
}

#[test]
fn ledger_without_support_on_a_host() {
    let mut state = State::new();
    state.list_token(&token(), &ACCOUNT_0, 100, 5);
    let (mut host, moved) = host_with_ledger(5);
    host.setup_mock_entrypoint(
        chain_contract(CIS_CONTRACT_ADDRESS),
        entrypoint("supports"),
        MockFn::new_v1(|_, _, _, _| {
            Ok((
                false,
                SupportsQueryResponse { results: vec![concordium_cis2::SupportResult::NoSupport] },
            ))
        }),
    );
    host.set_self_balance(Amount::from_micro_ccd(1_000));
    let add_params =
        AddParams { cis_contract_address: CIS_CONTRACT_ADDRESS, token_id: 2, price: 1, quantity: 1 };
    let start =
        cis2_market::exchange::add(Address::Account(ACCOUNT_0), MARKET_CONTRACT_ADDRESS, add_params);
    assert_eq!(finish(&mut state, &mut host, start), Err(DexError::CollectionNotSupported));
    let start = cis2_market::exchange::transfer(&state, MARKET_CONTRACT_ADDRESS, 300, trade(3));
    assert_eq!(finish(&mut state, &mut host, start), Err(DexError::CollectionNotSupported));
    let balance: u64 = host.self_balance().micro_ccd;
    let start = cis2_market::exchange::transfer_cis2(&state, MARKET_CONTRACT_ADDRESS, balance, trade(3));
    assert_eq!(finish(&mut state, &mut host, start), Err(DexError::CollectionNotSupported));
    assert_eq!(moved.get(), 0);
    assert!(host.get_transfers().is_empty());
    assert_eq!(state.entries().len(), 1);
    assert_eq!(
        state.get_token(&token(), &ACCOUNT_0),
        Some(TokenPriceState { quantity: 5, price: 100 })
    );
}

#[test]
fn ledger_that_rejects_the_call_on_a_host() {
    let mut state = State::new();
    state.list_token(&token(), &ACCOUNT_0, 100, 5);
    let (mut host, _) = host_with_ledger(5);
    host.setup_mock_entrypoint(
        chain_contract(CIS_CONTRACT_ADDRESS),
        entrypoint("transfer"),
        MockFn::new_v1(|_, _, _, _| Err::<(bool, ()), _>(CallContractError::Trap)),
    );
    let start = cis2_market::exchange::transfer(&state, MARKET_CONTRACT_ADDRESS, 300, trade(3));
    assert_eq!(finish(&mut state, &mut host, start), Err(DexError::LedgerCommunicationError));
    assert_eq!(
        state.get_token(&token(), &ACCOUNT_0),
        Some(TokenPriceState { quantity: 5, price: 100 })
    );
}

#[test]
fn sale_pays_the_owner_on_a_host() {
    let mut state = State::new();
    state.list_token(&token(), &ACCOUNT_0, 100, 5);
    let (mut host, moved) = host_with_ledger(5);
    host.set_self_balance(Amount::from_micro_ccd(1_000));
    let balance: u64 = host.self_balance().micro_ccd;
    let start = cis2_market::exchange::transfer_cis2(&state, MARKET_CONTRACT_ADDRESS, balance, trade(2));
    assert_eq!(finish(&mut state, &mut host, start), Ok(()));
    assert_eq!(moved.get(), 1);
    assert_eq!(
        host.get_transfers(),
        vec![(chain_account(ACCOUNT_0), Amount::from_micro_ccd(200))]
    );
    assert_eq!(host.self_balance(), Amount::from_micro_ccd(800));
    assert_eq!(
        state.get_token(&token(), &ACCOUNT_0),
        Some(TokenPriceState { quantity: 3, price: 100 })
    );
}

#[test]
fn failed_payout_on_a_host_leaves_the_tokens_moved() {
    let mut state = State::new();
    state.list_token(&token(), &ACCOUNT_0, 100, 5);
    let (mut host, moved) = host_with_ledger(5);
    host.set_self_balance(Amount::from_micro_ccd(1_000));
    host.make_account_missing(chain_account(ACCOUNT_0));
    let balance: u64 = host.self_balance().micro_ccd;
    let start = cis2_market::exchange::transfer_cis2(&state, MARKET_CONTRACT_ADDRESS, balance, trade(2));
    assert_eq!(finish(&mut state, &mut host, start), Err(DexError::CurrencyTransferFailed));
    assert_eq!(moved.get(), 1);
    assert!(host.get_transfers().is_empty());
    assert_eq!(host.self_balance(), Amount::from_micro_ccd(1_000));
    assert_eq!(
        state.get_token(&token(), &ACCOUNT_0),
        Some(TokenPriceState { quantity: 5, price: 100 })
    );
}
