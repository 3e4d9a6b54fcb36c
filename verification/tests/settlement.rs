//! Scenario tests of the matching and settlement engine.

use nft_marketplace::contract::{execute_accept_bid, execute_set_ask, execute_set_bid, BidInfo, NFTinfo};
use nft_marketplace::error::ContractError;
use nft_marketplace::msg::{MarketEvent, MarketMsg, SubMsg};
use nft_marketplace::state::{Coin, OrderStore, RoyaltyInfo, SaleType, SudoParams};

fn params() -> SudoParams {
    SudoParams {
        denom: "CMDX".to_string(),
        min_price: 5,
        bid_expiry_min: 10,
        bid_expiry_max: 100000,
        max_finders_fee_bps: 1000,
        trading_fee_percent: 2,
    }
}

fn coin(amount: u128) -> Coin {
    Coin { denom: "CMDX".to_string(), amount }
}

fn s(x: &str) -> String {
    x.to_string()
}

fn fixed_ask(price: u128) -> NFTinfo {
    NFTinfo {
        sale_type: SaleType::FixedPrice,
        collection: s("col"),
        token_id: 1,
        price: coin(price),
        funds_recipient: None,
        reserve_for: None,
        finders_fee_bps: None,
        expires: 50000,
    }
}

fn plain_bid(expires: u64) -> BidInfo {
    BidInfo { collection: s("col"), token_id: 1, expires, finder: None, finders_fee_bps: None }
}

const NOW: u64 = 1000;

#[test]
fn fixed_price_exact_match_settles() {
    let p = params();
    let mut store = OrderStore::new();
    let hooks: Vec<String> = Vec::new();
    execute_set_ask(&p, &mut store, &hooks, s("seller"), fixed_ask(100), true).unwrap();
    let resp = execute_set_bid(
        &p,
        &mut store,
        &hooks,
        &hooks,
        NOW,
        s("buyer"),
        vec![coin(100)],
        SaleType::FixedPrice,
        plain_bid(2000),
        false,
        Some(s("seller")),
        None,
    )
    .unwrap();
    assert_eq!(resp.messages.len(), 3);
    assert_eq!(resp.messages[0], SubMsg { msg: MarketMsg::FairBurn { amount: 2 }, reply_id: None });
    assert_eq!(
        resp.messages[1],
        SubMsg {
            msg: MarketMsg::Send { to_address: s("seller"), amount: 98, denom: s("CMDX") },
            reply_id: None
        }
    );
    assert_eq!(
        resp.messages[2],
        SubMsg {
            msg: MarketMsg::TransferNft { collection: s("col"), token_id: 1, recipient: s("buyer") },
            reply_id: None
        }
    );
    assert_eq!(
        resp.events[0],
        MarketEvent::FinalizeSale {
            collection: s("col"),
            token_id: 1,
            seller: s("seller"),
            buyer: s("buyer"),
            price: 100
        }
    );
    assert!(matches!(resp.events[1], MarketEvent::SetBid { .. }));
    assert!(store.get_ask(&s("col"), 1).is_none());
    assert!(store.get_bid(&s("col"), 1, &s("buyer")).is_none());
}

#[test]
fn settlement_with_royalty_and_finder_splits_payment() {
    let p = params();
    let mut store = OrderStore::new();
    let hooks: Vec<String> = Vec::new();
    // the ask carries the finder's-fee rate; the bid names the finder
    let mut info = fixed_ask(100);
    info.finders_fee_bps = Some(500);
    execute_set_ask(&p, &mut store, &hooks, s("seller"), info, true).unwrap();
    let royalty = Some(RoyaltyInfo { payment_address: s("artist"), share_bps: 1000 });
    let bid = BidInfo {
        collection: s("col"),
        token_id: 1,
        expires: 2000,
        finder: Some(s("finder")),
        finders_fee_bps: Some(500),
    };
    let resp = execute_set_bid(
        &p,
        &mut store,
        &hooks,
        &hooks,
        NOW,
        s("buyer"),
        vec![coin(100)],
        SaleType::FixedPrice,
        bid,
        false,
        Some(s("seller")),
        royalty,
    )
    .unwrap();
    // network 2, finder 5, royalty 10, seller 83: the split sums to 100
    assert_eq!(resp.messages[0], SubMsg { msg: MarketMsg::FairBurn { amount: 2 }, reply_id: None });
    assert_eq!(
        resp.messages[1],
        SubMsg {
            msg: MarketMsg::Send { to_address: s("finder"), amount: 5, denom: s("CMDX") },
            reply_id: None
        }
    );
    assert_eq!(
        resp.messages[2],
        SubMsg {
            msg: MarketMsg::Send { to_address: s("artist"), amount: 10, denom: s("CMDX") },
            reply_id: None
        }
    );
    assert_eq!(
        resp.messages[3],
        SubMsg {
            msg: MarketMsg::Send { to_address: s("seller"), amount: 83, denom: s("CMDX") },
            reply_id: None
        }
    );
    assert!(matches!(resp.messages[4].msg, MarketMsg::TransferNft { .. }));
    assert_eq!(2 + 5 + 10 + 83, 100u128);
    assert_eq!(
        resp.events[0],
        MarketEvent::RoyaltyPayout {
            collection: s("col"),
            amount: 10,
            denom: s("CMDX"),
            recipient: s("artist")
        }
    );
}

#[test]
fn auction_bid_above_ask_is_stored_not_settled() {
    let p = params();
    let mut store = OrderStore::new();
    let hooks: Vec<String> = Vec::new();
    let mut info = fixed_ask(50);
    info.sale_type = SaleType::Auction;
    execute_set_ask(&p, &mut store, &hooks, s("seller"), info, true).unwrap();
    let resp = execute_set_bid(
        &p,
        &mut store,
        &hooks,
        &hooks,
        NOW,
        s("buyer"),
        vec![coin(60)],
        SaleType::Auction,
        plain_bid(2000),
        false,
        Some(s("seller")),
        None,
    )
    .unwrap();
    // no transfers at all: the ask stays open, the bid stands
    assert_eq!(resp.messages.len(), 0);
    assert_eq!(resp.events.len(), 1);
    assert!(matches!(resp.events[0], MarketEvent::SetBid { .. }));
    assert_eq!(store.get_ask(&s("col"), 1).unwrap().price, 50);
    assert_eq!(store.get_bid(&s("col"), 1, &s("buyer")).unwrap().price, 60);
}

#[test]
fn second_bid_refunds_first_before_storing() {
    let p = params();
    let mut store = OrderStore::new();
    let hooks: Vec<String> = Vec::new();
    execute_set_bid(
        &p,
        &mut store,
        &hooks,
        &hooks,
        NOW,
        s("buyer"),
        vec![coin(30)],
        SaleType::FixedPrice,
        plain_bid(2000),
        false,
        None,
        None,
    )
    .unwrap();
    let resp = execute_set_bid(
        &p,
        &mut store,
        &hooks,
        &hooks,
        NOW,
        s("buyer"),
        vec![coin(40)],
        SaleType::FixedPrice,
        plain_bid(3000),
        false,
        None,
        None,
    )
    .unwrap();
    // the 30 escrowed for the first bid comes back ahead of everything else
    assert_eq!(
        resp.messages[0],
        SubMsg {
            msg: MarketMsg::Send { to_address: s("buyer"), amount: 30, denom: s("CMDX") },
            reply_id: None
        }
    );
    // the net escrow held is the new bid alone
    assert_eq!(store.get_bid(&s("col"), 1, &s("buyer")).unwrap().price, 40);
    assert_eq!(store.bids.len(), 1);
}

#[test]
fn fees_exceeding_payment_abort_settlement_with_no_transfers() {
    let p = params();
    let mut store = OrderStore::new();
    let hooks: Vec<String> = Vec::new();
    execute_set_ask(&p, &mut store, &hooks, s("seller"), fixed_ask(100), true).unwrap();
    // a full-payment royalty plus the network fee cannot fit in the payment
    let royalty = Some(RoyaltyInfo { payment_address: s("artist"), share_bps: 10000 });
    let r = execute_set_bid(
        &p,
        &mut store,
        &hooks,
        &hooks,
        NOW,
        s("buyer"),
        vec![coin(100)],
        SaleType::FixedPrice,
        plain_bid(2000),
        false,
        Some(s("seller")),
        royalty,
    );
    match r {
        Err(ContractError::Std { msg }) => assert_eq!(msg, "Fees exceed payment"),
        other => panic!("expected the fees-exceed error, got {:?}", other),
    }
    // aborted settlement leaves the whole store as it was
    assert_eq!(store.get_ask(&s("col"), 1).unwrap().price, 100);
    assert!(store.get_bid(&s("col"), 1, &s("buyer")).is_none());
}

#[test]
fn accept_bid_settles_with_the_bids_finder() {
    let p = params();
    let mut store = OrderStore::new();
    let hooks: Vec<String> = Vec::new();
    let mut info = fixed_ask(50);
    info.sale_type = SaleType::Auction;
    execute_set_ask(&p, &mut store, &hooks, s("seller"), info, true).unwrap();
    let bid = BidInfo {
        collection: s("col"),
        token_id: 1,
        expires: 2000,
        finder: Some(s("finder")),
        finders_fee_bps: Some(500),
    };
    execute_set_bid(
        &p,
        &mut store,
        &hooks,
        &hooks,
        NOW,
        s("buyer"),
        vec![coin(60)],
        SaleType::Auction,
        bid,
        false,
        Some(s("seller")),
        None,
    )
    .unwrap();
    let resp = execute_accept_bid(
        &p,
        &mut store,
        &hooks,
        NOW,
        s("seller"),
        Vec::new(),
        s("col"),
        1,
        s("buyer"),
        Some(s("seller")),
        None,
        None,
    )
    .unwrap();
    // network fee 1, finder 3, seller 56 of the 60 payment
    assert_eq!(resp.messages[0], SubMsg { msg: MarketMsg::FairBurn { amount: 1 }, reply_id: None });
    assert_eq!(
        resp.messages[1],
        SubMsg {
            msg: MarketMsg::Send { to_address: s("finder"), amount: 3, denom: s("CMDX") },
            reply_id: None
        }
    );
    assert_eq!(
        resp.messages[2],
        SubMsg {
            msg: MarketMsg::Send { to_address: s("seller"), amount: 56, denom: s("CMDX") },
            reply_id: None
        }
    );
    assert_eq!(
        resp.messages[3],
        SubMsg {
            msg: MarketMsg::TransferNft { collection: s("col"), token_id: 1, recipient: s("buyer") },
            reply_id: None
        }
    );
    assert_eq!(
        resp.events[1],
        MarketEvent::AcceptBid { collection: s("col"), token_id: 1, bidder: s("buyer"), price: 60 }
    );
    assert!(store.get_ask(&s("col"), 1).is_none());
    assert!(store.get_bid(&s("col"), 1, &s("buyer")).is_none());
}

#[test]
fn accepting_an_expired_bid_fails_and_changes_nothing() {
    let p = params();
    let mut store = OrderStore::new();
    let hooks: Vec<String> = Vec::new();
    let mut info = fixed_ask(50);
    info.sale_type = SaleType::Auction;
    execute_set_ask(&p, &mut store, &hooks, s("seller"), info, true).unwrap();
    execute_set_bid(
        &p,
        &mut store,
        &hooks,
        &hooks,
        NOW,
        s("buyer"),
        vec![coin(60)],
        SaleType::Auction,
        plain_bid(2000),
        false,
        Some(s("seller")),
        None,
    )
    .unwrap();
    // well past the bid's expiry
    let r = execute_accept_bid(
        &p,
        &mut store,
        &hooks,
        5000,
        s("seller"),
        Vec::new(),
        s("col"),
        1,
        s("buyer"),
        Some(s("seller")),
        None,
        None,
    );
    assert_eq!(r.unwrap_err(), ContractError::BidExpired {});
    assert_eq!(store.get_ask(&s("col"), 1).unwrap().price, 50);
    assert_eq!(store.get_bid(&s("col"), 1, &s("buyer")).unwrap().price, 60);
}

#[test]
fn accept_bid_by_non_owner_fails_before_any_mutation() {
    let p = params();
    let mut store = OrderStore::new();
    let hooks: Vec<String> = Vec::new();
    execute_set_bid(
        &p,
        &mut store,
        &hooks,
        &hooks,
        NOW,
        s("buyer"),
        vec![coin(60)],
        SaleType::Auction,
        plain_bid(2000),
        false,
        None,
        None,
    )
    .unwrap();
    let r = execute_accept_bid(
        &p,
        &mut store,
        &hooks,
        NOW,
        s("impostor"),
        Vec::new(),
        s("col"),
        1,
        s("buyer"),
        Some(s("real_owner")),
        None,
        None,
    );
    assert_eq!(r.unwrap_err(), ContractError::UnauthorizedOwner {});
    assert_eq!(store.get_bid(&s("col"), 1, &s("buyer")).unwrap().price, 60);
}

#[test]
fn accept_bid_with_failed_owner_query_relays_the_failure() {
    let p = params();
    let mut store = OrderStore::new();
    let hooks: Vec<String> = Vec::new();
    execute_set_bid(
        &p,
        &mut store,
        &hooks,
        &hooks,
        NOW,
        s("buyer"),
        vec![coin(60)],
        SaleType::Auction,
        plain_bid(2000),
        false,
        None,
        None,
    )
    .unwrap();
    let r = execute_accept_bid(
        &p,
        &mut store,
        &hooks,
        NOW,
        s("seller"),
        Vec::new(),
        s("col"),
        1,
        s("buyer"),
        None,
        None,
        None,
    );
    assert!(matches!(r.unwrap_err(), ContractError::Std { .. }));
}

#[test]
fn zero_share_royalty_terms_pay_no_royalty() {
    let p = params();
    let mut store = OrderStore::new();
    let hooks: Vec<String> = Vec::new();
    execute_set_ask(&p, &mut store, &hooks, s("seller"), fixed_ask(100), true).unwrap();
    let royalty = Some(RoyaltyInfo { payment_address: s("artist"), share_bps: 0 });
    let resp = execute_set_bid(
        &p,
        &mut store,
        &hooks,
        &hooks,
        NOW,
        s("buyer"),
        vec![coin(100)],
        SaleType::FixedPrice,
        plain_bid(2000),
        false,
        Some(s("seller")),
        royalty,
    )
    .unwrap();
    // no royalty transfer, the seller takes the full remainder
    assert_eq!(
        resp.messages[1],
        SubMsg {
            msg: MarketMsg::Send { to_address: s("seller"), amount: 98, denom: s("CMDX") },
            reply_id: None
        }
    );
}

#[test]
fn funds_recipient_overrides_the_seller_payout() {
    let p = params();
    let mut store = OrderStore::new();
    let hooks: Vec<String> = Vec::new();
    let mut info = fixed_ask(100);
    info.funds_recipient = Some(s("treasury"));
    execute_set_ask(&p, &mut store, &hooks, s("seller"), info, true).unwrap();
    let resp = execute_set_bid(
        &p,
        &mut store,
        &hooks,
        &hooks,
        NOW,
        s("buyer"),
        vec![coin(100)],
        SaleType::FixedPrice,
        plain_bid(2000),
        false,
        Some(s("seller")),
        None,
    )
    .unwrap();
    assert_eq!(
        resp.messages[1],
        SubMsg {
            msg: MarketMsg::Send { to_address: s("treasury"), amount: 98, denom: s("CMDX") },
            reply_id: None
        }
    );
}

#[test]
fn stale_listing_is_rejected_at_settlement() {
    let p = params();
    let mut store = OrderStore::new();
    let hooks: Vec<String> = Vec::new();
    execute_set_ask(&p, &mut store, &hooks, s("seller"), fixed_ask(100), true).unwrap();
    // the token changed hands out of band: the recorded seller no longer owns it
    let r = execute_set_bid(
        &p,
        &mut store,
        &hooks,
        &hooks,
        NOW,
        s("buyer"),
        vec![coin(100)],
        SaleType::FixedPrice,
        plain_bid(2000),
        false,
        Some(s("new_owner")),
        None,
    );
    assert_eq!(r.unwrap_err(), ContractError::InvalidListing {});
    // the aborted request leaves the ask standing
    assert_eq!(store.get_ask(&s("col"), 1).unwrap().price, 100);
}
