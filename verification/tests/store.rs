use cis2_market::address::{AccountAddress, Address, ContractAddress};
use cis2_market::state::{State, TokenInfo, TokenListItem, TokenOwnerInfo, TokenPriceState};
use std::collections::HashMap;

fn account(byte: u8) -> AccountAddress {
    AccountAddress([byte; 32])
}

fn ledger() -> ContractAddress {
    ContractAddress { index: 1, subindex: 0 }
}

fn token(id: u8) -> TokenInfo {
    TokenInfo { id, address: ledger() }
}

#[test]
fn new_store_is_empty() {
    let state = State::new();
    assert!(state.entries().is_empty());
    assert!(state.list().is_empty());
    assert_eq!(state.get_token(&token(1), &account(0)), None);
}

#[test]
fn listing_is_found_again() {
    let mut state = State::new();
    state.list_token(&token(1), &account(0), 100, 5);
    assert_eq!(
        state.get_token(&token(1), &account(0)),
        Some(TokenPriceState { quantity: 5, price: 100 })
    );
    assert_eq!(
        state.list(),
        vec![TokenListItem {
            token_id: 1,
            contract: ledger(),
            price: 100,
            owner: account(0),
            quantity: 5,
        }]
    );
}

#[test]
fn first_listing_wins() {
    let mut state = State::new();
    state.list_token(&token(1), &account(0), 100, 5);
    state.list_token(&token(1), &account(0), 7, 9);
    assert_eq!(state.entries().len(), 1);
    assert_eq!(
        state.get_token(&token(1), &account(0)),
        Some(TokenPriceState { quantity: 5, price: 100 })
    );
}

#[test]
fn keys_differ_by_token_ledger_and_owner() {
    let mut state = State::new();
    let other_ledger = TokenInfo { id: 1, address: ContractAddress { index: 1, subindex: 1 } };
    state.list_token(&token(1), &account(0), 10, 1);
    state.list_token(&token(2), &account(0), 20, 2);
    state.list_token(&token(1), &account(1), 30, 3);
    state.list_token(&other_ledger, &account(0), 40, 4);
    assert_eq!(state.entries().len(), 4);
    assert_eq!(
        state.get_token(&token(1), &account(0)),
        Some(TokenPriceState { quantity: 1, price: 10 })
    );
    assert_eq!(
        state.get_token(&token(2), &account(0)),
        Some(TokenPriceState { quantity: 2, price: 20 })
    );
    assert_eq!(
        state.get_token(&token(1), &account(1)),
        Some(TokenPriceState { quantity: 3, price: 30 })
    );
    assert_eq!(
        state.get_token(&other_ledger, &account(0)),
        Some(TokenPriceState { quantity: 4, price: 40 })
    );
    assert_eq!(state.get_token(&token(2), &account(1)), None);
}

#[test]
fn owners_that_differ_in_the_last_byte_are_different_owners() {
    let mut first = [7u8; 32];
    let mut second = [7u8; 32];
    first[31] = 1;
    second[31] = 2;
    assert_ne!(AccountAddress(first), AccountAddress(second));
    assert_eq!(AccountAddress(first), AccountAddress(first));
    let mut state = State::new();
    state.list_token(&token(1), &AccountAddress(first), 10, 1);
    assert_eq!(state.get_token(&token(1), &AccountAddress(second)), None);
    state.list_token(&token(1), &AccountAddress(second), 20, 2);
    assert_eq!(
        state.get_token(&token(1), &AccountAddress(first)),
        Some(TokenPriceState { quantity: 1, price: 10 })
    );
    assert_eq!(
        state.get_token(&token(1), &AccountAddress(second)),
        Some(TokenPriceState { quantity: 2, price: 20 })
    );
}

#[test]
fn listings_are_reported_in_the_order_of_their_listing() {
    let mut state = State::new();
    state.list_token(&token(3), &account(2), 30, 3);
    state.list_token(&token(1), &account(0), 10, 1);
    state.list_token(&token(2), &account(1), 20, 2);
    let ids: Vec<u8> = state.entries().iter().map(|item| item.token_id).collect();
    assert_eq!(ids, vec![3u8, 1u8, 2u8]);
    assert_eq!(state.list(), state.entries());
}

#[test]
fn decrease_takes_the_units_and_keeps_the_price() {
    let mut state = State::new();
    state.list_token(&token(1), &account(0), 100, 5);
    state.list_token(&token(2), &account(0), 50, 8);
    state.decrease_listed_quantity(&TokenOwnerInfo::from(token(1), &account(0)), 3);
    assert_eq!(
        state.get_token(&token(1), &account(0)),
        Some(TokenPriceState { quantity: 2, price: 100 })
    );
    assert_eq!(
        state.get_token(&token(2), &account(0)),
        Some(TokenPriceState { quantity: 8, price: 50 })
    );
}

#[test]
fn decrease_of_a_missing_listing_changes_nothing() {
    let mut state = State::new();
    state.list_token(&token(1), &account(0), 100, 5);
    let before = state.entries();
    state.decrease_listed_quantity(&TokenOwnerInfo::from(token(9), &account(0)), 3);
    assert_eq!(state.entries(), before);
}

#[test]
fn sold_out_listing_stays_in_the_store() {
    let mut state = State::new();
    state.list_token(&token(1), &account(0), 100, 5);
    state.decrease_listed_quantity(&TokenOwnerInfo::from(token(1), &account(0)), 5);
    assert_eq!(
        state.get_token(&token(1), &account(0)),
        Some(TokenPriceState { quantity: 0, price: 100 })
    );
    assert_eq!(state.entries().len(), 1);
    assert!(state.list().is_empty());
    state.list_token(&token(1), &account(0), 1, 1);
    assert_eq!(
        state.get_token(&token(1), &account(0)),
        Some(TokenPriceState { quantity: 0, price: 100 })
    );
}

#[test]
fn key_is_made_of_token_and_owner() {
    let key = TokenOwnerInfo::from(token(4), &account(9));
    assert_eq!(key, TokenOwnerInfo { id: 4, address: ledger(), owner: account(9) });
    assert_ne!(key, TokenOwnerInfo::from(token(4), &account(8)));
    assert_ne!(key, TokenOwnerInfo::from(token(5), &account(9)));
}

#[test]
fn an_account_is_not_a_contract() {
    assert_ne!(Address::Account(account(0)), Address::Contract(ledger()));
    assert_eq!(Address::Contract(ledger()), Address::Contract(ledger()));
}

/// A small generator of numbers that look random and are the same at every
/// run.
struct Numbers {
    seed: u64,
}

impl Numbers {
    fn next(&mut self, below: u64) -> u64 {
        self.seed = self.seed.wrapping_mul(6364136223846793005).wrapping_add(1442695040888963407);
        (self.seed >> 33) % below
    }
}

#[test]
fn store_agrees_with_a_plain_map() {
    let mut numbers = Numbers { seed: 42 };
    let mut state = State::new();
    let mut plain: HashMap<(u8, u64, u8), (u64, u64)> = HashMap::new();
    let mut order: Vec<(u8, u64, u8)> = Vec::new();
    for _ in 0..2_000 {
        let id: u8 = numbers.next(4) as u8;
        let index: u64 = numbers.next(3);
        let owner: u8 = numbers.next(3) as u8;
        let info = TokenInfo { id, address: ContractAddress { index, subindex: 0 } };
        match numbers.next(3) {
            0 => {
                let price: u64 = numbers.next(1_000);
                let quantity: u64 = numbers.next(20);
                state.list_token(&info, &account(owner), price, quantity);
                if !plain.contains_key(&(id, index, owner)) {
                    plain.insert((id, index, owner), (price, quantity));
                    order.push((id, index, owner));
                }
            }
            1 => {
                if let Some((_, quantity)) = plain.get_mut(&(id, index, owner)) {
                    let delta: u64 = numbers.next(*quantity + 1);
                    *quantity -= delta;
                    state.decrease_listed_quantity(
                        &TokenOwnerInfo::from(info, &account(owner)),
                        delta,
                    );
                } else {
                    state.decrease_listed_quantity(&TokenOwnerInfo::from(info, &account(owner)), 1);
                }
            }
            _ => {}
        }
        assert_eq!(
            state.get_token(&info, &account(owner)),
            plain
                .get(&(id, index, owner))
                .map(|(price, quantity)| TokenPriceState { quantity: *quantity, price: *price })
        );
    }
    let expected: Vec<TokenListItem> = order
        .iter()
        .map(|key| TokenListItem {
            token_id: key.0,
            contract: ContractAddress { index: key.1, subindex: 0 },
            price: plain[key].0,
            owner: account(key.2),
            quantity: plain[key].1,
        })
        .collect();
    assert_eq!(state.entries(), expected);
    let on_offer: Vec<TokenListItem> =
        expected.iter().copied().filter(|item| item.quantity > 0).collect();
    assert_eq!(state.list(), on_offer);
    assert_eq!(cis2_market::exchange::list(&state).0, on_offer);
}

#[test]
fn list_of_the_store_leaves_out_what_is_sold_out() {
    let mut state = State::new();
    state.list_token(&token(1), &account(0), 10, 2);
    state.list_token(&token(2), &account(0), 20, 0);
    state.list_token(&token(3), &account(0), 30, 3);
    state.decrease_listed_quantity(&TokenOwnerInfo::from(token(1), &account(0)), 2);
    assert_eq!(
        state.list(),
        vec![TokenListItem {
            token_id: 3,
            contract: ledger(),
            price: 30,
            owner: account(0),
            quantity: 3,
        }]
    );
    let ids: Vec<u8> = state.entries().iter().map(|item| item.token_id).collect();
    assert_eq!(ids, vec![1u8, 2u8, 3u8]);
    assert_eq!(
        state.get_token(&token(1), &account(0)),
        Some(TokenPriceState { quantity: 0, price: 10 })
    );
}

#[test]
fn store_with_one_sold_out_listing_lists_nothing() {
    let mut state = State::new();
    state.list_token(&token(1), &account(0), 10, 0);
    assert!(state.list().is_empty());
    assert_eq!(state.entries().len(), 1);
}
