//! The listing store: which owner offers how many units of which token, and
//! at what price per unit.

use crate::address::{AccountAddress, ContractAddress};
use vstd::prelude::*;
use vstd::std_specs::cmp::PartialEqSpecImpl;

verus! {

/// How the ledgers served by this exchange identify a token type.
pub type ContractTokenId = u8;

/// How the ledgers served by this exchange count tokens.
pub type ContractTokenAmount = u64;

/// An amount of currency, in its smallest unit.
pub type Amount = u64;

/// A token type on a ledger.
#[derive(Clone, Copy, Debug, PartialEq, Eq, Structural)]
pub struct TokenInfo {
    pub id: ContractTokenId,
    pub address: ContractAddress,
}

/// The key of a listing: a token type on a ledger and the account that owns
/// the listed tokens.
#[derive(Clone, Copy, Debug, Eq)]
pub struct TokenOwnerInfo {
    pub id: ContractTokenId,
    pub address: ContractAddress,
    pub owner: AccountAddress,
}

impl PartialEq for TokenOwnerInfo {
    /// Two keys are equal when token, ledger and owner are.
    fn eq(&self, other: &Self) -> (same: bool) {
        self.id == other.id && self.address == other.address && self.owner == other.owner
    }
}

impl PartialEqSpecImpl for TokenOwnerInfo {
    open spec fn obeys_eq_spec() -> bool {
        true
    }

    open spec fn eq_spec(&self, other: &Self) -> bool {
        *self == *other
    }
}

impl TokenOwnerInfo {
    /// The key under which `owner` lists the token `token_info`.
    pub fn from(token_info: TokenInfo, owner: &AccountAddress) -> (key: Self)
        ensures
            key == listing_key(token_info, *owner),
    {
        TokenOwnerInfo { owner: *owner, id: token_info.id, address: token_info.address }
    }
}

/// The key under which `owner` lists the token `token_info`.
pub open spec fn listing_key(token_info: TokenInfo, owner: AccountAddress) -> TokenOwnerInfo {
    TokenOwnerInfo { id: token_info.id, address: token_info.address, owner }
}

/// What a listing holds: the units still on offer and the price of one unit.
#[derive(Clone, Copy, Debug, PartialEq, Eq, Structural)]
pub struct TokenPriceState {
    pub quantity: ContractTokenAmount,
    pub price: Amount,
}

/// A listing together with its key, as queries report it.
#[derive(Clone, Copy, Debug, PartialEq, Eq)]
pub struct TokenListItem {
    pub token_id: ContractTokenId,
    pub contract: ContractAddress,
    pub price: Amount,
    pub owner: AccountAddress,
    pub quantity: ContractTokenAmount,
}

impl TokenListItem {
    /// The key of the listing that this record reports.
    pub open spec fn key(self) -> TokenOwnerInfo {
        TokenOwnerInfo { id: self.token_id, address: self.contract, owner: self.owner }
    }

    /// The listing that this record reports.
    pub open spec fn listing(self) -> TokenPriceState {
        TokenPriceState { quantity: self.quantity, price: self.price }
    }
}

/// The record that reports `listing` under `key`.
pub open spec fn list_item(key: TokenOwnerInfo, listing: TokenPriceState) -> TokenListItem {
    TokenListItem {
        token_id: key.id,
        contract: key.address,
        price: listing.price,
        owner: key.owner,
        quantity: listing.quantity,
    }
}

/// The listings after an attempt to list `listing` under `key`: the first
/// listing under a key stays, a later one changes nothing.
pub open spec fn with_listing(
    listings: Map<TokenOwnerInfo, TokenPriceState>,
    key: TokenOwnerInfo,
    listing: TokenPriceState,
) -> Map<TokenOwnerInfo, TokenPriceState> {
    if listings.contains_key(key) {
        listings
    } else {
        listings.insert(key, listing)
    }
}

/// The listings after `delta` units have left the listing under `key`, if
/// there is one.
pub open spec fn with_fewer(
    listings: Map<TokenOwnerInfo, TokenPriceState>,
    key: TokenOwnerInfo,
    delta: ContractTokenAmount,
) -> Map<TokenOwnerInfo, TokenPriceState> {
    if listings.contains_key(key) {
        listings.insert(
            key,
            TokenPriceState {
                quantity: (listings[key].quantity - delta) as ContractTokenAmount,
                price: listings[key].price,
            },
        )
    } else {
        listings
    }
}

/// The record `item` after `delta` units have left the listing under `key`.
pub open spec fn item_with_fewer(
    item: TokenListItem,
    key: TokenOwnerInfo,
    delta: ContractTokenAmount,
) -> TokenListItem {
    if item.key() == key {
        TokenListItem { quantity: (item.quantity - delta) as ContractTokenAmount, ..item }
    } else {
        item
    }
}

/// Whether no two records of `items` have the same key.
pub open spec fn distinct_keys(items: Seq<TokenListItem>) -> bool {
    forall|i: int, j: int|
        0 <= i < j < items.len() ==> (#[trigger] items[i]).key() != (#[trigger] items[j]).key()
}

/// Whether `items` reports each listing of `listings` once and nothing else.
pub open spec fn reports(
    items: Seq<TokenListItem>,
    listings: Map<TokenOwnerInfo, TokenPriceState>,
) -> bool {
    &&& distinct_keys(items)
    &&& forall|i: int|
        0 <= i < items.len() ==> listings.contains_key((#[trigger] items[i]).key())
            && listings[items[i].key()] == items[i].listing()
    &&& forall|key: TokenOwnerInfo| #[trigger]
        listings.contains_key(key) ==> exists|i: int|
            0 <= i < items.len() && (#[trigger] items[i]).key() == key
}

spec fn holds(items: Seq<TokenListItem>, key: TokenOwnerInfo) -> bool {
    exists|i: int| 0 <= i < items.len() && (#[trigger] items[i]).key() == key
}

spec fn position(items: Seq<TokenListItem>, key: TokenOwnerInfo) -> int {
    choose|i: int| 0 <= i < items.len() && (#[trigger] items[i]).key() == key
}

spec fn as_map(items: Seq<TokenListItem>) -> Map<TokenOwnerInfo, TokenPriceState> {
    Map::new(
        |key: TokenOwnerInfo| holds(items, key),
        |key: TokenOwnerInfo| items[position(items, key)].listing(),
    )
}

proof fn lemma_as_map(items: Seq<TokenListItem>)
    requires
        distinct_keys(items),
    ensures
        reports(items, as_map(items)),
        forall|key: TokenOwnerInfo| as_map(items).contains_key(key) <==> holds(items, key),
{
    assert forall|i: int| 0 <= i < items.len() implies as_map(items).contains_key(
        (#[trigger] items[i]).key(),
    ) && as_map(items)[items[i].key()] == items[i].listing() by {
        let key = items[i].key();
        assert(holds(items, key));
        let j = position(items, key);
        assert(items[j].key() == key);
        assert(j == i);
    }
}

proof fn lemma_as_map_push(items: Seq<TokenListItem>, item: TokenListItem)
    requires
        distinct_keys(items),
        !holds(items, item.key()),
    ensures
        distinct_keys(items.push(item)),
        as_map(items.push(item)) == as_map(items).insert(item.key(), item.listing()),
{
    let more = items.push(item);
    assert forall|i: int, j: int| 0 <= i < j < more.len() implies (#[trigger] more[i]).key() != (
    #[trigger] more[j]).key() by {
        if j == items.len() {
            assert(more[i] == items[i]);
        } else {
            assert(more[i] == items[i]);
            assert(more[j] == items[j]);
        }
    }
    lemma_as_map(items);
    lemma_as_map(more);
    let wanted = as_map(items).insert(item.key(), item.listing());
    assert forall|key: TokenOwnerInfo| as_map(more).contains_key(key) <==> wanted.contains_key(
        key,
    ) by {
        if holds(more, key) {
            let i = position(more, key);
            if i < items.len() {
                assert(items[i] == more[i]);
            }
        }
        if holds(items, key) {
            let i = position(items, key);
            assert(more[i] == items[i]);
        }
        if key == item.key() {
            assert(more[items.len() as int] == item);
        }
    }
    assert forall|key: TokenOwnerInfo| as_map(more).contains_key(key) implies as_map(more)[key]
        == wanted[key] by {
        let i = position(more, key);
        assert(more[i].key() == key);
        if i < items.len() {
            assert(more[i] == items[i]);
        } else {
            assert(more[i] == item);
        }
    }
    assert(as_map(more) =~= wanted);
}

proof fn lemma_as_map_fewer(
    items: Seq<TokenListItem>,
    at: int,
    delta: ContractTokenAmount,
)
    requires
        distinct_keys(items),
        0 <= at < items.len(),
    ensures
        distinct_keys(items.map_values(|it: TokenListItem| item_with_fewer(it, items[at].key(), delta))),
        as_map(items.map_values(|it: TokenListItem| item_with_fewer(it, items[at].key(), delta)))
            == with_fewer(as_map(items), items[at].key(), delta),
        items.map_values(|it: TokenListItem| item_with_fewer(it, items[at].key(), delta))
            == items.update(at, item_with_fewer(items[at], items[at].key(), delta)),
{
    let key = items[at].key();
    let fewer = items.map_values(|it: TokenListItem| item_with_fewer(it, key, delta));
    assert forall|i: int| 0 <= i < items.len() implies (#[trigger] fewer[i]).key() == items[i].key()
        && fewer[i] == item_with_fewer(items[i], key, delta) by {}
    assert forall|i: int, j: int| 0 <= i < j < fewer.len() implies (#[trigger] fewer[i]).key() != (
    #[trigger] fewer[j]).key() by {
        assert(items[i].key() != items[j].key());
    }
    assert forall|i: int| 0 <= i < items.len() && i != at implies #[trigger] fewer[i]
        == items[i] by {
        assert(items[i].key() != items[at].key());
    }
    assert(fewer =~= items.update(at, item_with_fewer(items[at], key, delta)));
    lemma_as_map(items);
    lemma_as_map(fewer);
    let wanted = with_fewer(as_map(items), key, delta);
    assert forall|k: TokenOwnerInfo| as_map(fewer).contains_key(k) <==> wanted.contains_key(k) by {
        if holds(fewer, k) {
            let i = position(fewer, k);
            assert(items[i].key() == k);
        }
        if holds(items, k) {
            let i = position(items, k);
            assert(fewer[i].key() == k);
        }
    }
    assert forall|k: TokenOwnerInfo| as_map(fewer).contains_key(k) implies as_map(fewer)[k]
        == wanted[k] by {
        let i = position(fewer, k);
        assert(fewer[i].key() == k);
        assert(items[i].key() == k);
        assert(as_map(items)[items[i].key()] == items[i].listing());
    }
    assert(as_map(fewer) =~= wanted);
}

/// The listings of `listings` that still have units on offer.
pub open spec fn on_offer(listings: Map<TokenOwnerInfo, TokenPriceState>) -> Map<
    TokenOwnerInfo,
    TokenPriceState,
> {
    Map::new(
        |key: TokenOwnerInfo| listings.contains_key(key) && listings[key].quantity > 0,
        |key: TokenOwnerInfo| listings[key],
    )
}

/// Leaving out records does not make two keys equal.
proof fn lemma_filter_keeps_keys_distinct(
    items: Seq<TokenListItem>,
    kept: spec_fn(TokenListItem) -> bool,
)
    requires
        distinct_keys(items),
    ensures
        distinct_keys(items.filter(kept)),
    decreases items.len(),
{
    reveal(Seq::filter);
    if items.len() > 0 {
        let rest = items.drop_last();
        assert forall|i: int, j: int| 0 <= i < j < rest.len() implies (#[trigger] rest[i]).key() != (
        #[trigger] rest[j]).key() by {
            assert(rest[i] == items[i]);
            assert(rest[j] == items[j]);
        }
        lemma_filter_keeps_keys_distinct(rest, kept);
        if kept(items.last()) {
            let before = rest.filter(kept);
            let after = items.filter(kept);
            assert(after == before.push(items.last()));
            assert forall|i: int, j: int| 0 <= i < j < after.len() implies (
            #[trigger] after[i]).key() != (#[trigger] after[j]).key() by {
                assert(after[i] == before[i]);
                if j == before.len() {
                    assert(before.contains(before[i]));
                    rest.lemma_filter_contains_rev(kept, before[i]);
                    let k = choose|k: int| 0 <= k < rest.len() && rest[k] == before[i];
                    assert(items[k] == before[i]);
                    assert(items[k].key() != items[items.len() - 1].key());
                } else {
                    assert(after[j] == before[j]);
                }
            }
        }
    }
}

/// The records with units on offer report the listings with units on offer.
proof fn lemma_on_offer_reports(
    items: Seq<TokenListItem>,
    listings: Map<TokenOwnerInfo, TokenPriceState>,
)
    requires
        reports(items, listings),
    ensures
        reports(items.filter(|item: TokenListItem| item.quantity > 0), on_offer(listings)),
{
    let kept = |item: TokenListItem| item.quantity > 0;
    let some = items.filter(kept);
    lemma_filter_keeps_keys_distinct(items, kept);
    assert forall|i: int| 0 <= i < some.len() implies on_offer(listings).contains_key(
        (#[trigger] some[i]).key(),
    ) && on_offer(listings)[some[i].key()] == some[i].listing() by {
        items.lemma_filter_pred(kept, i);
        assert(some.contains(some[i]));
        items.lemma_filter_contains_rev(kept, some[i]);
        let k = choose|k: int| 0 <= k < items.len() && items[k] == some[i];
        assert(listings.contains_key(items[k].key()));
    }
    assert forall|key: TokenOwnerInfo| #[trigger]
        on_offer(listings).contains_key(key) implies exists|i: int|
        0 <= i < some.len() && (#[trigger] some[i]).key() == key by {
        assert(listings.contains_key(key));
        let k = choose|k: int| 0 <= k < items.len() && (#[trigger] items[k]).key() == key;
        assert(items[k].listing() == listings[key]);
        items.lemma_filter_contains(kept, k);
        let i = choose|i: int| 0 <= i < some.len() && some[i] == items[k];
        assert(some[i].key() == key);
    }
}

/// The listings of one exchange. Under a key there is at most one listing; a
/// listing whose units are all sold stays in the store.
pub struct State {
    token_prices: Vec<TokenListItem>,
}

impl View for State {
    type V = Map<TokenOwnerInfo, TokenPriceState>;

    /// The listings, by key.
    closed spec fn view(&self) -> Map<TokenOwnerInfo, TokenPriceState> {
        as_map(self.token_prices@)
    }
}

impl State {
    #[verifier::type_invariant]
    spec fn well_formed(self) -> bool {
        distinct_keys(self.token_prices@)
    }

    /// The listings as records, in the order in which the store holds them.
    pub closed spec fn items(&self) -> Seq<TokenListItem> {
        self.token_prices@
    }

    /// A store without listings.
    pub fn new() -> (state: Self)
        ensures
            state@ == Map::<TokenOwnerInfo, TokenPriceState>::empty(),
            state.items() == Seq::<TokenListItem>::empty(),
    {
        let state = State { token_prices: Vec::new() };
        assert(state@ =~= Map::<TokenOwnerInfo, TokenPriceState>::empty());
        state
    }

    fn find(&self, key: &TokenOwnerInfo) -> (found: Option<usize>)
        ensures
            match found {
                Some(at) => at < self.token_prices@.len() && self.token_prices@[at as int].key()
                    == *key,
                None => !holds(self.token_prices@, *key),
            },
    {
        let mut at: usize = 0;
        while at < self.token_prices.len()
            invariant
                at <= self.token_prices@.len(),
                forall|i: int| 0 <= i < at ==> (#[trigger] self.token_prices@[i]).key() != *key,
            decreases self.token_prices@.len() - at,
        {
            let item = &self.token_prices[at];
            let here = TokenOwnerInfo { id: item.token_id, address: item.contract, owner: item.owner };
            if here == *key {
                return Some(at);
            }
            at += 1;
        }
        None
    }

    /// Lists `quantity` units of the token at `price` each for `owner`,
    /// unless the owner has listed this token before: then nothing changes.
    pub fn list_token(
        &mut self,
        token_info: &TokenInfo,
        owner: &AccountAddress,
        price: Amount,
        quantity: ContractTokenAmount,
    )
        ensures
            final(self)@ == with_listing(
                old(self)@,
                listing_key(*token_info, *owner),
                TokenPriceState { quantity, price },
            ),
            final(self).items() == if old(self)@.contains_key(listing_key(*token_info, *owner)) {
                old(self).items()
            } else {
                old(self).items().push(
                    list_item(listing_key(*token_info, *owner), TokenPriceState { quantity, price }),
                )
            },
    {
        proof {
            use_type_invariant(&*self);
            lemma_as_map(self.token_prices@);
        }
        let key = TokenOwnerInfo::from(*token_info, owner);
        match self.find(&key) {
            Some(_) => {},
            None => {
                let item = TokenListItem {
                    token_id: key.id,
                    contract: key.address,
                    price,
                    owner: key.owner,
                    quantity,
                };
                proof {
                    lemma_as_map_push(self.token_prices@, item);
                }
                let mut token_prices = Vec::new();
                std::mem::swap(&mut token_prices, &mut self.token_prices);
                token_prices.push(item);
                self.token_prices = token_prices;
            },
        }
    }

    /// Takes `delta` units out of the listing under `token_info`; without
    /// such a listing nothing changes. The caller sees to it that the listing
    /// holds at least `delta` units.
    pub fn decrease_listed_quantity(&mut self, token_info: &TokenOwnerInfo, delta: ContractTokenAmount)
        requires
            old(self)@.contains_key(*token_info) ==> old(self)@[*token_info].quantity >= delta,
        ensures
            final(self)@ == with_fewer(old(self)@, *token_info, delta),
            final(self).items() == old(self).items().map_values(
                |item: TokenListItem| item_with_fewer(item, *token_info, delta),
            ),
    {
        proof {
            use_type_invariant(&*self);
            lemma_as_map(self.token_prices@);
        }
        match self.find(token_info) {
            Some(at) => {
                let item = self.token_prices[at];
                proof {
                    lemma_as_map_fewer(self.token_prices@, at as int, delta);
                }
                let fewer = TokenListItem { quantity: item.quantity - delta, ..item };
                let mut token_prices = Vec::new();
                std::mem::swap(&mut token_prices, &mut self.token_prices);
                token_prices[at] = fewer;
                self.token_prices = token_prices;
            },
            None => {
                assert(self.token_prices@.map_values(
                    |item: TokenListItem| item_with_fewer(item, *token_info, delta),
                ) =~= self.token_prices@);
            },
        }
    }

    /// The listing of the token by `owner`, if there is one.
    pub fn get_token(&self, token_info: &TokenInfo, owner: &AccountAddress) -> (listing: Option<
        TokenPriceState,
    >)
        ensures
            listing == if self@.contains_key(listing_key(*token_info, *owner)) {
                Some(self@[listing_key(*token_info, *owner)])
            } else {
                None
            },
    {
        proof {
            use_type_invariant(self);
            lemma_as_map(self.token_prices@);
        }
        let key = TokenOwnerInfo::from(*token_info, owner);
        match self.find(&key) {
            Some(at) => {
                let item = &self.token_prices[at];
                Some(TokenPriceState { quantity: item.quantity, price: item.price })
            },
            None => None,
        }
    }

    /// Every listing, sold out or not, in the order in which the store holds
    /// them.
    pub fn entries(&self) -> (items: Vec<TokenListItem>)
        ensures
            items@ == self.items(),
            reports(items@, self@),
    {
        proof {
            use_type_invariant(self);
            lemma_as_map(self.token_prices@);
        }
        let mut items: Vec<TokenListItem> = Vec::new();
        let mut at: usize = 0;
        while at < self.token_prices.len()
            invariant
                at <= self.token_prices@.len(),
                items@ == self.token_prices@.take(at as int),
            decreases self.token_prices@.len() - at,
        {
            items.push(self.token_prices[at]);
            at += 1;
            assert(items@ =~= self.token_prices@.take(at as int));
        }
        assert(items@ =~= self.token_prices@);
        items
    }

    /// The listings that still have units on offer, in the order in which
    /// the store holds them. A listing that is sold out stays in the store
    /// and is left out here.
    pub fn list(&self) -> (items: Vec<TokenListItem>)
        ensures
            items@ == self.items().filter(|item: TokenListItem| item.quantity > 0),
            forall|i: int| 0 <= i < items@.len() ==> (#[trigger] items@[i]).quantity > 0,
            reports(items@, on_offer(self@)),
    {
        proof {
            use_type_invariant(self);
            lemma_as_map(self.token_prices@);
            lemma_on_offer_reports(self.token_prices@, self@);
        }
        let ghost kept = |item: TokenListItem| item.quantity > 0;
        let mut items: Vec<TokenListItem> = Vec::new();
        let mut at: usize = 0;
        while at < self.token_prices.len()
            invariant
                at <= self.token_prices@.len(),
                kept == |item: TokenListItem| item.quantity > 0,
                items@ == self.token_prices@.take(at as int).filter(kept),
            decreases self.token_prices@.len() - at,
        {
            let item = self.token_prices[at];
            proof {
                assert(self.token_prices@.take(at as int + 1) == self.token_prices@.take(
                    at as int,
                ).push(item));
                self.token_prices@.take(at as int).lemma_filter_push(item, kept);
            }
            if item.quantity > 0 {
                items.push(item);
            }
            at += 1;
        }
        proof {
            assert(self.token_prices@.take(at as int) == self.token_prices@);
            assert forall|i: int| 0 <= i < items@.len() implies (#[trigger] items@[i]).quantity
                > 0 by {
                self.token_prices@.lemma_filter_pred(kept, i);
            }
        }
        items
    }
}

} // verus!
