//! Tests of the validation layer: each rejection comes on exactly the
//! inputs that provoke it, and rejections write no state.

use nft_marketplace::contract::{
    execute_accept_bid, execute_set_ask, execute_set_bid, only_owner, only_tradable,
    parse_royalties, price_validate, BidInfo, NFTinfo,
};
use nft_marketplace::error::{ContractError, PaymentIssue};
use nft_marketplace::state::{Coin, OrderStore, RoyaltyInfo, SaleType, SudoParams};

fn params() -> SudoParams {
    SudoParams {
        denom: "CMDX".to_string(),
        min_price: 5,
        bid_expiry_min: 10,
        bid_expiry_max: 100000,
        max_finders_fee_bps: 1000,
        trading_fee_percent: 2,
    }
}

fn coin(amount: u128) -> Coin {
    Coin { denom: "CMDX".to_string(), amount }
}

fn s(x: &str) -> String {
    x.to_string()
}

fn fixed_ask(price: u128) -> NFTinfo {
    NFTinfo {
        sale_type: SaleType::FixedPrice,
        collection: s("col"),
        token_id: 1,
        price: coin(price),
        funds_recipient: None,
        reserve_for: None,
        finders_fee_bps: None,
        expires: 50000,
    }
}

fn plain_bid(expires: u64) -> BidInfo {
    BidInfo { collection: s("col"), token_id: 1, expires, finder: None, finders_fee_bps: None }
}

fn set_bid(
    p: &SudoParams,
    store: &mut OrderStore,
    funds: Vec<Coin>,
    bid: BidInfo,
    buy_now: bool,
) -> Result<nft_marketplace::msg::Response, ContractError> {
    let hooks: Vec<String> = Vec::new();
    execute_set_bid(
        p,
        store,
        &hooks,
        &hooks,
        1000,
        s("buyer"),
        funds,
        SaleType::FixedPrice,
        bid,
        buy_now,
        Some(s("seller")),
        None,
    )
}

const NOW: u64 = 1000;

#[test]
fn ask_with_zero_price_is_rejected() {
    let p = params();
    let mut store = OrderStore::new();
    let hooks: Vec<String> = Vec::new();
    let r = execute_set_ask(&p, &mut store, &hooks, s("seller"), fixed_ask(0), true);
    assert_eq!(r.unwrap_err(), ContractError::InvalidPrice {});
    assert!(store.asks.is_empty());
}

#[test]
fn ask_in_a_foreign_currency_is_rejected() {
    let p = params();
    let mut store = OrderStore::new();
    let hooks: Vec<String> = Vec::new();
    let mut info = fixed_ask(100);
    info.price = Coin { denom: s("uatom"), amount: 100 };
    let r = execute_set_ask(&p, &mut store, &hooks, s("seller"), info, true);
    assert_eq!(r.unwrap_err(), ContractError::InvalidPrice {});
    assert!(store.asks.is_empty());
}

#[test]
fn valid_ask_is_created_and_overwritten_last_writer_wins() {
    let p = params();
    let mut store = OrderStore::new();
    let hooks: Vec<String> = Vec::new();
    execute_set_ask(&p, &mut store, &hooks, s("seller"), fixed_ask(100), true).unwrap();
    assert_eq!(store.get_ask(&s("col"), 1).unwrap().price, 100);
    execute_set_ask(&p, &mut store, &hooks, s("seller"), fixed_ask(120), true).unwrap();
    assert_eq!(store.get_ask(&s("col"), 1).unwrap().price, 120);
    assert_eq!(store.asks.len(), 1);
}

#[test]
fn ask_without_transfer_approval_is_rejected() {
    let p = params();
    let mut store = OrderStore::new();
    let hooks: Vec<String> = Vec::new();
    let r = execute_set_ask(&p, &mut store, &hooks, s("seller"), fixed_ask(100), false);
    assert!(matches!(r.unwrap_err(), ContractError::Std { .. }));
    assert!(store.asks.is_empty());
}

#[test]
fn reserving_for_the_seller_is_rejected() {
    let p = params();
    let mut store = OrderStore::new();
    let hooks: Vec<String> = Vec::new();
    let mut info = fixed_ask(100);
    info.reserve_for = Some(s("seller"));
    let r = execute_set_ask(&p, &mut store, &hooks, s("seller"), info, true);
    match r.unwrap_err() {
        ContractError::InvalidReserveAddress { reason } => {
            assert_eq!(reason, "cannot reserve to the same address")
        },
        other => panic!("unexpected error {:?}", other),
    }
}

#[test]
fn reserving_an_auction_sale_is_rejected() {
    let p = params();
    let mut store = OrderStore::new();
    let hooks: Vec<String> = Vec::new();
    let mut info = fixed_ask(100);
    info.sale_type = SaleType::Auction;
    info.reserve_for = Some(s("vip"));
    let r = execute_set_ask(&p, &mut store, &hooks, s("seller"), info, true);
    match r.unwrap_err() {
        ContractError::InvalidReserveAddress { reason } => {
            assert_eq!(reason, "can only reserve for fixed_price sales")
        },
        other => panic!("unexpected error {:?}", other),
    }
}

#[test]
fn ask_finders_fee_above_the_bound_is_rejected() {
    let p = params();
    let mut store = OrderStore::new();
    let hooks: Vec<String> = Vec::new();
    let mut info = fixed_ask(100);
    info.finders_fee_bps = Some(2000);
    let r = execute_set_ask(&p, &mut store, &hooks, s("seller"), info, true);
    assert_eq!(r.unwrap_err(), ContractError::InvalidFindersFeeBps(2000));
}

#[test]
fn bidder_acting_as_own_finder_is_rejected() {
    let p = params();
    let mut store = OrderStore::new();
    let mut bid = plain_bid(2000);
    bid.finder = Some(s("buyer"));
    let r = set_bid(&p, &mut store, vec![coin(50)], bid, false);
    assert!(matches!(r.unwrap_err(), ContractError::InvalidFinder { .. }));
    assert!(store.bids.is_empty());
}

#[test]
fn bid_with_no_funds_is_rejected() {
    let p = params();
    let mut store = OrderStore::new();
    let r = set_bid(&p, &mut store, Vec::new(), plain_bid(2000), false);
    assert_eq!(r.unwrap_err(), ContractError::Payment(PaymentIssue::NoFunds));
}

#[test]
fn bid_with_zero_amount_is_rejected() {
    let p = params();
    let mut store = OrderStore::new();
    let r = set_bid(&p, &mut store, vec![coin(0)], plain_bid(2000), false);
    assert_eq!(r.unwrap_err(), ContractError::Payment(PaymentIssue::NoFunds));
}

#[test]
fn bid_with_two_coins_is_rejected() {
    let p = params();
    let mut store = OrderStore::new();
    let r = set_bid(&p, &mut store, vec![coin(10), coin(20)], plain_bid(2000), false);
    assert_eq!(r.unwrap_err(), ContractError::Payment(PaymentIssue::MultipleDenoms));
}

#[test]
fn bid_in_a_foreign_currency_is_rejected() {
    let p = params();
    let mut store = OrderStore::new();
    let funds = vec![Coin { denom: s("uatom"), amount: 50 }];
    let r = set_bid(&p, &mut store, funds, plain_bid(2000), false);
    assert_eq!(r.unwrap_err(), ContractError::Payment(PaymentIssue::MissingDenom));
}

#[test]
fn bid_below_the_minimum_price_is_rejected() {
    let p = params();
    let mut store = OrderStore::new();
    let r = set_bid(&p, &mut store, vec![coin(3)], plain_bid(2000), false);
    assert_eq!(r.unwrap_err(), ContractError::PriceTooSmall(3));
}

#[test]
fn bid_expiring_too_soon_or_too_late_is_rejected() {
    let p = params();
    let mut store = OrderStore::new();
    // at the lower bound: not strictly beyond now + min
    let r = set_bid(&p, &mut store, vec![coin(50)], plain_bid(NOW + 10), false);
    assert_eq!(r.unwrap_err(), ContractError::InvalidExpirationRange {});
    // beyond the upper bound
    let r = set_bid(&p, &mut store, vec![coin(50)], plain_bid(NOW + 100001), false);
    assert_eq!(r.unwrap_err(), ContractError::InvalidExpirationRange {});
    // inside the window
    let r = set_bid(&p, &mut store, vec![coin(50)], plain_bid(NOW + 11), false);
    assert!(r.is_ok());
}

#[test]
fn bid_finders_fee_above_the_bound_is_rejected() {
    let p = params();
    let mut store = OrderStore::new();
    let mut bid = plain_bid(2000);
    bid.finder = Some(s("finder"));
    bid.finders_fee_bps = Some(1001);
    let r = set_bid(&p, &mut store, vec![coin(50)], bid, false);
    assert_eq!(r.unwrap_err(), ContractError::InvalidFindersFeeBps(1001));
}

#[test]
fn bid_on_an_expired_ask_is_rejected() {
    let p = params();
    let mut store = OrderStore::new();
    let hooks: Vec<String> = Vec::new();
    let mut info = fixed_ask(100);
    info.expires = 999;
    execute_set_ask(&p, &mut store, &hooks, s("seller"), info, true).unwrap();
    let r = set_bid(&p, &mut store, vec![coin(50)], plain_bid(2000), false);
    assert_eq!(r.unwrap_err(), ContractError::AskExpired {});
    assert!(store.bids.is_empty());
}

#[test]
fn bid_on_an_inactive_ask_is_rejected() {
    let p = params();
    let mut store = OrderStore::new();
    let hooks: Vec<String> = Vec::new();
    execute_set_ask(&p, &mut store, &hooks, s("seller"), fixed_ask(100), true).unwrap();
    store.asks[0].is_active = false;
    let r = set_bid(&p, &mut store, vec![coin(50)], plain_bid(2000), false);
    assert_eq!(r.unwrap_err(), ContractError::AskNotActive {});
}

#[test]
fn reserved_token_rejects_other_bidders() {
    let p = params();
    let mut store = OrderStore::new();
    let hooks: Vec<String> = Vec::new();
    let mut info = fixed_ask(100);
    info.reserve_for = Some(s("vip"));
    execute_set_ask(&p, &mut store, &hooks, s("seller"), info, true).unwrap();
    let r = set_bid(&p, &mut store, vec![coin(50)], plain_bid(2000), false);
    assert_eq!(r.unwrap_err(), ContractError::TokenReserved {});
    // the reserved buyer may bid
    let r = execute_set_bid(
        &p,
        &mut store,
        &hooks,
        &hooks,
        NOW,
        s("vip"),
        vec![coin(50)],
        SaleType::FixedPrice,
        plain_bid(2000),
        false,
        Some(s("seller")),
        None,
    );
    assert!(r.is_ok());
}

#[test]
fn buy_now_without_an_ask_is_rejected() {
    let p = params();
    let mut store = OrderStore::new();
    let r = set_bid(&p, &mut store, vec![coin(50)], plain_bid(2000), true);
    assert_eq!(r.unwrap_err(), ContractError::ItemNotForSale {});
}

#[test]
fn overpaying_a_fixed_price_ask_is_rejected() {
    let p = params();
    let mut store = OrderStore::new();
    let hooks: Vec<String> = Vec::new();
    execute_set_ask(&p, &mut store, &hooks, s("seller"), fixed_ask(100), true).unwrap();
    let r = set_bid(&p, &mut store, vec![coin(101)], plain_bid(2000), false);
    assert_eq!(r.unwrap_err(), ContractError::InvalidPrice {});
    assert!(store.bids.is_empty());
}

#[test]
fn underbidding_a_fixed_price_ask_stores_a_standing_bid() {
    let p = params();
    let mut store = OrderStore::new();
    let hooks: Vec<String> = Vec::new();
    execute_set_ask(&p, &mut store, &hooks, s("seller"), fixed_ask(100), true).unwrap();
    let r = set_bid(&p, &mut store, vec![coin(99)], plain_bid(2000), false);
    assert!(r.is_ok());
    assert_eq!(store.get_bid(&s("col"), 1, &s("buyer")).unwrap().price, 99);
    // never a settlement: the ask still stands
    assert_eq!(store.get_ask(&s("col"), 1).unwrap().price, 100);
}

#[test]
fn underbidding_an_auction_ask_is_rejected() {
    let p = params();
    let mut store = OrderStore::new();
    let hooks: Vec<String> = Vec::new();
    let mut info = fixed_ask(50);
    info.sale_type = SaleType::Auction;
    execute_set_ask(&p, &mut store, &hooks, s("seller"), info, true).unwrap();
    let r = set_bid(&p, &mut store, vec![coin(49)], plain_bid(2000), false);
    assert_eq!(r.unwrap_err(), ContractError::InvalidPrice {});
    // a bid at exactly the ask price stands
    let r = set_bid(&p, &mut store, vec![coin(50)], plain_bid(2000), false);
    assert!(r.is_ok());
    assert_eq!(store.get_ask(&s("col"), 1).unwrap().price, 50);
}

#[test]
fn accept_bid_with_funds_attached_is_rejected() {
    let p = params();
    let mut store = OrderStore::new();
    let hooks: Vec<String> = Vec::new();
    let r = execute_accept_bid(
        &p,
        &mut store,
        &hooks,
        NOW,
        s("seller"),
        vec![coin(1)],
        s("col"),
        1,
        s("buyer"),
        Some(s("seller")),
        None,
        None,
    );
    assert_eq!(r.unwrap_err(), ContractError::Payment(PaymentIssue::NonPayable));
}

#[test]
fn accept_bid_before_trading_starts_is_rejected() {
    let p = params();
    let mut store = OrderStore::new();
    let hooks: Vec<String> = Vec::new();
    let r = execute_accept_bid(
        &p,
        &mut store,
        &hooks,
        NOW,
        s("seller"),
        Vec::new(),
        s("col"),
        1,
        s("buyer"),
        Some(s("seller")),
        Some(NOW + 500),
        None,
    );
    assert_eq!(r.unwrap_err(), ContractError::CollectionNotTradable {});
}

#[test]
fn accept_bid_without_a_bid_is_rejected() {
    let p = params();
    let mut store = OrderStore::new();
    let hooks: Vec<String> = Vec::new();
    let r = execute_accept_bid(
        &p,
        &mut store,
        &hooks,
        NOW,
        s("seller"),
        Vec::new(),
        s("col"),
        1,
        s("buyer"),
        Some(s("seller")),
        Some(NOW - 500),
        None,
    );
    assert_eq!(r.unwrap_err(), ContractError::BidNotFound {});
}

#[test]
fn price_validate_checks_amount_and_currency() {
    let p = params();
    assert!(price_validate(&p, &coin(1)).is_ok());
    assert_eq!(price_validate(&p, &coin(0)).unwrap_err(), ContractError::InvalidPrice {});
    let foreign = Coin { denom: s("uatom"), amount: 10 };
    assert_eq!(price_validate(&p, &foreign).unwrap_err(), ContractError::InvalidPrice {});
}

#[test]
fn parse_royalties_drops_zero_shares() {
    assert_eq!(parse_royalties(None), None);
    let zero = RoyaltyInfo { payment_address: s("artist"), share_bps: 0 };
    assert_eq!(parse_royalties(Some(zero)), None);
    let live = RoyaltyInfo { payment_address: s("artist"), share_bps: 300 };
    assert_eq!(parse_royalties(Some(live)), Some(RoyaltyInfo { payment_address: s("artist"), share_bps: 300 }));
}

#[test]
fn only_owner_and_only_tradable_gates() {
    assert!(only_owner(&s("me"), &Some(s("me"))).is_ok());
    assert_eq!(only_owner(&s("me"), &Some(s("you"))).unwrap_err(), ContractError::UnauthorizedOwner {});
    assert!(matches!(only_owner(&s("me"), &None).unwrap_err(), ContractError::Std { .. }));
    assert_eq!(only_tradable(1000, &None), Ok(true));
    assert_eq!(only_tradable(1000, &Some(1000)), Ok(true));
    assert_eq!(only_tradable(1000, &Some(1001)).unwrap_err(), ContractError::CollectionNotTradable {});
}
