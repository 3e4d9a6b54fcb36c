//! The matching engine and settlement engine: the ask/bid lifecycle state
//! machine, the payout computation, and the hook fan-out.
//!
//! Everything the chain supplies — the escrowed funds of the request, the
//! current owner of a token, a collection's royalty terms and
//! trading-start time, the approval status of the marketplace — enters
//! these functions as plain values queried by the caller beforehand, and
//! every outgoing effect leaves as part of a [`Response`] batch.

use crate::error::{ContractError, PaymentIssue};
use crate::fees::{
    fee_portion, spec_effective_royalty, spec_fees_exceed, spec_finders_fee,
    spec_network_fee, spec_royalty_amount, spec_seller_share,
};
use crate::msg::{
    spec_ask_hook_submsgs, spec_bid_hook_submsgs, spec_sale_hook_submsgs, AskHookMsg, BidHookMsg,
    HookAction, HookReply, MarketEvent, MarketMsg, Response, SaleHookMsg, SubMsg,
};
use crate::state::{
    ask_at, bid_at, Ask, Bid, Coin, OrderStore, RoyaltyInfo, SaleType, SudoParams, TokenId,
};
use vstd::prelude::*;
use vstd::string::StringExecFns;

verus! {

/// What a set-ask request carries, with all identities already validated
/// by the envelope.
pub struct NFTinfo {
    pub sale_type: SaleType,
    pub collection: String,
    pub token_id: TokenId,
    pub price: Coin,
    pub funds_recipient: Option<String>,
    pub reserve_for: Option<String>,
    pub finders_fee_bps: Option<u64>,
    pub expires: u64,
}

/// What a set-bid or buy-now request carries.
pub struct BidInfo {
    pub collection: String,
    pub token_id: TokenId,
    pub expires: u64,
    pub finder: Option<String>,
    pub finders_fee_bps: Option<u64>,
}

/// What cw_utils::must_pay answers for the attached funds: the amount of
/// the single non-zero coin of `denom`, or why there is no such amount.
pub open spec fn spec_must_pay(funds: Seq<Coin>, denom: Seq<char>) -> Result<u128, PaymentIssue> {
    if funds.len() == 0 {
        Err(PaymentIssue::NoFunds)
    } else if funds.len() > 1 {
        Err(PaymentIssue::MultipleDenoms)
    } else if funds[0].amount == 0 {
        Err(PaymentIssue::NoFunds)
    } else if funds[0].denom@ != denom {
        Err(PaymentIssue::MissingDenom)
    } else {
        Ok(funds[0].amount)
    }
}

/// Relies on cw_utils::must_pay: it returns the amount sent when the funds
/// are exactly one coin of `denom` with a non-zero amount, and otherwise
/// the error that `spec_must_pay` names (zero or no coins give NoFunds,
/// two or more give MultipleDenoms, a foreign coin gives MissingDenom).
#[verifier::external_body]
fn must_pay(funds: &Vec<Coin>, denom: &String) -> (r: Result<u128, PaymentIssue>)
    ensures
        r == spec_must_pay(funds@, denom@),
{
    let coins: Vec<cosmwasm_std::Coin> = funds
        .iter()
        .map(|c| cosmwasm_std::Coin { denom: c.denom.clone(), amount: cosmwasm_std::Uint128::new(c.amount) })
        .collect();
    let info = cosmwasm_std::MessageInfo { sender: cosmwasm_std::Addr::unchecked("escrow"), funds: coins };
    match cw_utils::must_pay(&info, denom.as_str()) {
        Ok(a) => Ok(a.u128()),
        Err(cw_utils::PaymentError::NoFunds {}) => Err(PaymentIssue::NoFunds),
        Err(cw_utils::PaymentError::MultipleDenoms {}) => Err(PaymentIssue::MultipleDenoms),
        Err(cw_utils::PaymentError::MissingDenom(_)) => Err(PaymentIssue::MissingDenom),
        Err(_) => Err(PaymentIssue::NonPayable),
    }
}

/// Relies on cw_utils::nonpayable: it accepts exactly the requests that
/// carry no funds.
#[verifier::external_body]
fn nonpayable(funds: &Vec<Coin>) -> (r: bool)
    ensures
        r == (funds@.len() == 0),
{
    let coins: Vec<cosmwasm_std::Coin> = funds
        .iter()
        .map(|c| cosmwasm_std::Coin { denom: c.denom.clone(), amount: cosmwasm_std::Uint128::new(c.amount) })
        .collect();
    let info = cosmwasm_std::MessageInfo { sender: cosmwasm_std::Addr::unchecked("caller"), funds: coins };
    cw_utils::nonpayable(&info).is_ok()
}

/// Price validation: an ask's price must be non-zero and in the settlement
/// currency.
pub fn price_validate(params: &SudoParams, price: &Coin) -> (r: Result<(), ContractError>)
    ensures
        r == (if price.amount > 0 && price.denom@ == params.denom@ {
            Ok::<(), ContractError>(())
        } else {
            Err(ContractError::InvalidPrice {})
        }),
{
    if price.amount == 0 || !(price.denom == params.denom) {
        return Err(ContractError::InvalidPrice {});
    }
    Ok(())
}

/// Royalty terms with a zero share count as no royalty at all.
pub fn parse_royalties(royalty_info: Option<RoyaltyInfo>) -> (r: Option<RoyaltyInfo>)
    ensures
        r == spec_effective_royalty(royalty_info),
{
    match royalty_info {
        Some(royalty) => {
            if royalty.share_bps == 0 {
                return None;
            }
            Some(royalty)
        },
        None => None,
    }
}

/// Authorization gate of accept-bid: the caller must be the token's
/// current on-chain owner, as the ownership registry reported it
/// (`None` when that query failed).
pub fn only_owner(sender: &String, current_owner: &Option<String>) -> (r: Result<(), ContractError>)
    ensures
        r is Ok <==> (*current_owner matches Some(o) && o@ == sender@),
        (r matches Err(e) && e matches ContractError::Std { msg } && msg@ == "owner query failed"@)
            <==> *current_owner is None,
        (r matches Err(e) && e matches ContractError::UnauthorizedOwner { .. }) <==> (
        *current_owner matches Some(o) && o@ != sender@),
{
    match current_owner {
        None => Err(ContractError::Std { msg: String::from_str("owner query failed") }),
        Some(owner) => {
            if !(*owner == *sender) {
                return Err(ContractError::UnauthorizedOwner {});
            }
            Ok(())
        },
    }
}

/// Tradability gate of accept-bid.  A collection without a trading-start
/// time — including one whose metadata query failed — is tradable: an
/// explicit permissive default.
pub fn only_tradable(now: u64, start_trading_time: &Option<u64>) -> (r: Result<bool, ContractError>)
    ensures
        r == (match *start_trading_time {
            Some(t) => if t > now {
                Err::<bool, ContractError>(ContractError::CollectionNotTradable {})
            } else {
                Ok::<bool, ContractError>(true)
            },
            None => Ok::<bool, ContractError>(true),
        }),
{
    match start_trading_time {
        Some(t) => {
            if *t > now {
                Err(ContractError::CollectionNotTradable {})
            } else {
                Ok(true)
            }
        },
        None => Ok(true),
    }
}

/// One submessage per registered ask-hook subscriber, in registration
/// order, each tagged so a failing subscriber is reported, not fatal.
pub fn prepare_ask_hook(hooks: &Vec<String>, ask: &Ask, action: HookAction) -> (msgs: Vec<SubMsg>)
    ensures
        msgs@ == spec_ask_hook_submsgs(hooks@, *ask, action),
{
    let ghost expected = spec_ask_hook_submsgs(hooks@, *ask, action);
    let mut submsgs: Vec<SubMsg> = Vec::new();
    let n = hooks.len();
    let mut i: usize = 0;
    while i < n
        invariant
            i <= n,
            n == hooks@.len(),
            expected == spec_ask_hook_submsgs(hooks@, *ask, action),
            expected.len() == n,
            submsgs@ == expected.take(i as int),
        decreases n - i,
    {
        let msg = AskHookMsg { ask: ask.clone() };
        let execute = msg.into_execute_msg(action);
        submsgs.push(
            SubMsg {
                msg: MarketMsg::AskHook { contract_addr: hooks[i].clone(), msg: execute },
                reply_id: Some(HookReply::Ask.reply_id()),
            },
        );
        proof {
            assert(submsgs@ =~= expected.take(i + 1 as int));
        }
        i += 1;
    }
    proof {
        assert(submsgs@ =~= expected);
    }
    submsgs
}

/// One submessage per registered bid-hook subscriber.
pub fn prepare_bid_hook(hooks: &Vec<String>, bid: &Bid, action: HookAction) -> (msgs: Vec<SubMsg>)
    ensures
        msgs@ == spec_bid_hook_submsgs(hooks@, *bid, action),
{
    let ghost expected = spec_bid_hook_submsgs(hooks@, *bid, action);
    let mut submsgs: Vec<SubMsg> = Vec::new();
    let n = hooks.len();
    let mut i: usize = 0;
    while i < n
        invariant
            i <= n,
            n == hooks@.len(),
            expected == spec_bid_hook_submsgs(hooks@, *bid, action),
            expected.len() == n,
            submsgs@ == expected.take(i as int),
        decreases n - i,
    {
        let msg = BidHookMsg { bid: bid.clone() };
        let execute = msg.into_execute_msg(action);
        submsgs.push(
            SubMsg {
                msg: MarketMsg::BidHook { contract_addr: hooks[i].clone(), msg: execute },
                reply_id: Some(HookReply::Bid.reply_id()),
            },
        );
        proof {
            assert(submsgs@ =~= expected.take(i + 1 as int));
        }
        i += 1;
    }
    proof {
        assert(submsgs@ =~= expected);
    }
    submsgs
}

/// One submessage per registered sale-hook subscriber.
pub fn prepare_sale_hook(hooks: &Vec<String>, payload: &SaleHookMsg) -> (msgs: Vec<SubMsg>)
    ensures
        msgs@ == spec_sale_hook_submsgs(hooks@, *payload),
{
    let ghost expected = spec_sale_hook_submsgs(hooks@, *payload);
    let mut submsgs: Vec<SubMsg> = Vec::new();
    let n = hooks.len();
    let mut i: usize = 0;
    while i < n
        invariant
            i <= n,
            n == hooks@.len(),
            expected == spec_sale_hook_submsgs(hooks@, *payload),
            expected.len() == n,
            submsgs@ == expected.take(i as int),
        decreases n - i,
    {
        let msg = SaleHookMsg {
            collection: payload.collection.clone(),
            token_id: payload.token_id,
            price: payload.price.clone(),
            seller: payload.seller.clone(),
            buyer: payload.buyer.clone(),
        };
        let execute = msg.into_execute_msg();
        submsgs.push(
            SubMsg {
                msg: MarketMsg::SaleHook { contract_addr: hooks[i].clone(), msg: execute },
                reply_id: Some(HookReply::Sale.reply_id()),
            },
        );
        proof {
            assert(submsgs@ =~= expected.take(i + 1 as int));
        }
        i += 1;
    }
    proof {
        assert(submsgs@ =~= expected);
    }
    submsgs
}

/// The payout recipient: the ask's funds recipient, defaulting to the
/// seller.
pub open spec fn spec_payout_recipient(ask: Ask) -> String {
    match ask.funds_recipient {
        Some(r) => r,
        None => ask.seller,
    }
}

/// The exact fund-transfer set of one successful payout, in order: the
/// network-fee burn, the finder's fee (when a finder and a positive fee
/// exist), the royalty (under effective terms), and the seller share.
pub open spec fn spec_payout_msgs(
    params: SudoParams,
    payment: u128,
    recipient: String,
    finder: Option<String>,
    bps: Option<u64>,
    royalty: Option<RoyaltyInfo>,
) -> Seq<SubMsg> {
    let net = spec_network_fee(payment, params.trading_fee_percent);
    let ff = spec_finders_fee(payment, finder is Some, bps);
    let burn_part = seq![SubMsg { msg: MarketMsg::FairBurn { amount: net as u128 }, reply_id: None }];
    let finder_part = match finder {
        Some(f) => if ff > 0 {
            seq![
                SubMsg {
                    msg: MarketMsg::Send {
                        to_address: f,
                        amount: ff as u128,
                        denom: params.denom,
                    },
                    reply_id: None,
                },
            ]
        } else {
            Seq::<SubMsg>::empty()
        },
        None => Seq::<SubMsg>::empty(),
    };
    let royalty_part = match spec_effective_royalty(royalty) {
        Some(ri) => seq![
            SubMsg {
                msg: MarketMsg::Send {
                    to_address: ri.payment_address,
                    amount: spec_royalty_amount(payment, royalty) as u128,
                    denom: params.denom,
                },
                reply_id: None,
            },
        ],
        None => Seq::<SubMsg>::empty(),
    };
    let seller_part = seq![
        SubMsg {
            msg: MarketMsg::Send {
                to_address: recipient,
                amount: spec_seller_share(
                    payment,
                    params.trading_fee_percent,
                    finder is Some,
                    bps,
                    royalty,
                ) as u128,
                denom: params.denom,
            },
            reply_id: None,
        },
    ];
    burn_part + finder_part + royalty_part + seller_part
}

/// The events one successful payout appends: a royalty-payout event
/// exactly when effective royalty terms exist.
pub open spec fn spec_payout_events(
    params: SudoParams,
    collection: String,
    payment: u128,
    royalty: Option<RoyaltyInfo>,
) -> Seq<MarketEvent> {
    match spec_effective_royalty(royalty) {
        Some(ri) => seq![
            MarketEvent::RoyaltyPayout {
                collection,
                amount: spec_royalty_amount(payment, royalty) as u128,
                denom: params.denom,
                recipient: ri.payment_address,
            },
        ],
        None => Seq::<MarketEvent>::empty(),
    }
}

fn fees_exceed_error() -> (e: ContractError)
    ensures
        e matches ContractError::Std { msg } && msg@ == "Fees exceed payment"@,
{
    ContractError::Std { msg: String::from_str("Fees exceed payment") }
}

/// Computes and appends the payout split of one settlement: network fee
/// to the burn sink, finder's fee, royalty, seller share.  When the fixed
/// fees cannot be carved out of the payment it aborts with the generic
/// fees-exceed-payment error and appends nothing.
pub fn payout(
    params: &SudoParams,
    collection: &String,
    payment: u128,
    payment_recipient: &String,
    finder: &Option<String>,
    finders_fee_bps: Option<u64>,
    royalty_info: Option<RoyaltyInfo>,
    res: &mut Response,
) -> (r: Result<(), ContractError>)
    requires
        params.wf(),
        finders_fee_bps matches Some(b) ==> b <= 10000,
        royalty_info matches Some(ri) ==> ri.wf(),
    ensures
        r is Ok <==> !spec_fees_exceed(
            payment,
            params.trading_fee_percent,
            *finder is Some,
            finders_fee_bps,
            royalty_info,
        ),
        r is Ok ==> final(res).messages@ == old(res).messages@ + spec_payout_msgs(
            *params,
            payment,
            *payment_recipient,
            *finder,
            finders_fee_bps,
            royalty_info,
        ) && final(res).events@ == old(res).events@ + spec_payout_events(
            *params,
            *collection,
            payment,
            royalty_info,
        ),
        r is Err ==> *final(res) == *old(res) && (r matches Err(e) && e matches ContractError::Std {
            msg,
        } && msg@ == "Fees exceed payment"@),
{
    let network_fee = fee_portion(payment, params.trading_fee_percent, 100);
    let finders_fee: u128 = if finder.is_some() {
        match finders_fee_bps {
            Some(bps) => fee_portion(payment, bps, 10000),
            None => 0,
        }
    } else {
        0
    };
    let royalty = parse_royalties(royalty_info);
    match royalty {
        Some(ri) => {
            let royalty_amount = fee_portion(payment, ri.share_bps, 10000);
            let after_net = payment - network_fee;
            if after_net < finders_fee {
                return Err(fees_exceed_error());
            }
            if after_net - finders_fee < royalty_amount {
                return Err(fees_exceed_error());
            }
            let seller_gross = fee_portion(payment, 10000 - ri.share_bps, 10000);
            if seller_gross < network_fee {
                return Err(fees_exceed_error());
            }
            if seller_gross - network_fee < finders_fee {
                return Err(fees_exceed_error());
            }
            let seller_share = seller_gross - network_fee - finders_fee;
            res.messages.push(
                SubMsg { msg: MarketMsg::FairBurn { amount: network_fee }, reply_id: None },
            );
            match finder {
                Some(f) => {
                    if finders_fee > 0 {
                        res.messages.push(
                            SubMsg {
                                msg: MarketMsg::Send {
                                    to_address: f.clone(),
                                    amount: finders_fee,
                                    denom: params.denom.clone(),
                                },
                                reply_id: None,
                            },
                        );
                    }
                },
                None => {},
            }
            res.messages.push(
                SubMsg {
                    msg: MarketMsg::Send {
                        to_address: ri.payment_address.clone(),
                        amount: royalty_amount,
                        denom: params.denom.clone(),
                    },
                    reply_id: None,
                },
            );
            res.events.push(
                MarketEvent::RoyaltyPayout {
                    collection: collection.clone(),
                    amount: royalty_amount,
                    denom: params.denom.clone(),
                    recipient: ri.payment_address.clone(),
                },
            );
            res.messages.push(
                SubMsg {
                    msg: MarketMsg::Send {
                        to_address: payment_recipient.clone(),
                        amount: seller_share,
                        denom: params.denom.clone(),
                    },
                    reply_id: None,
                },
            );
            proof {
                assert(res.messages@ =~= old(res).messages@ + spec_payout_msgs(
                    *params,
                    payment,
                    *payment_recipient,
                    *finder,
                    finders_fee_bps,
                    royalty_info,
                ));
                assert(res.events@ =~= old(res).events@ + spec_payout_events(
                    *params,
                    *collection,
                    payment,
                    royalty_info,
                ));
            }
            Ok(())
        },
        None => {
            let after_net = payment - network_fee;
            if after_net < finders_fee {
                return Err(fees_exceed_error());
            }
            let seller_share = after_net - finders_fee;
            res.messages.push(
                SubMsg { msg: MarketMsg::FairBurn { amount: network_fee }, reply_id: None },
            );
            match finder {
                Some(f) => {
                    if finders_fee > 0 {
                        res.messages.push(
                            SubMsg {
                                msg: MarketMsg::Send {
                                    to_address: f.clone(),
                                    amount: finders_fee,
                                    denom: params.denom.clone(),
                                },
                                reply_id: None,
                            },
                        );
                    }
                },
                None => {},
            }
            res.messages.push(
                SubMsg {
                    msg: MarketMsg::Send {
                        to_address: payment_recipient.clone(),
                        amount: seller_share,
                        denom: params.denom.clone(),
                    },
                    reply_id: None,
                },
            );
            proof {
                assert(res.messages@ =~= old(res).messages@ + spec_payout_msgs(
                    *params,
                    payment,
                    *payment_recipient,
                    *finder,
                    finders_fee_bps,
                    royalty_info,
                ));
                assert(res.events@ =~= old(res).events@ + spec_payout_events(
                    *params,
                    *collection,
                    payment,
                    royalty_info,
                ));
            }
            Ok(())
        },
    }
}

/// The whole message set of one finalized sale: the payout transfers,
/// then the ownership transfer, then the sale-hook fan-out.
pub open spec fn spec_finalize_msgs(
    params: SudoParams,
    ask: Ask,
    price: u128,
    buyer: String,
    finder: Option<String>,
    royalty: Option<RoyaltyInfo>,
    sale_hooks: Seq<String>,
) -> Seq<SubMsg> {
    spec_payout_msgs(
        params,
        price,
        spec_payout_recipient(ask),
        finder,
        ask.finders_fee_bps,
        royalty,
    ) + seq![
        SubMsg {
            msg: MarketMsg::TransferNft {
                collection: ask.collection,
                token_id: ask.token_id,
                recipient: buyer,
            },
            reply_id: None,
        },
    ] + spec_sale_hook_submsgs(
        sale_hooks,
        SaleHookMsg {
            collection: ask.collection,
            token_id: ask.token_id,
            price: Coin { denom: params.denom, amount: ask.price },
            seller: ask.seller,
            buyer,
        },
    )
}

/// The events of one finalized sale: the royalty payout (if any), then
/// the settlement notification.
pub open spec fn spec_finalize_events(
    params: SudoParams,
    ask: Ask,
    price: u128,
    buyer: String,
    royalty: Option<RoyaltyInfo>,
) -> Seq<MarketEvent> {
    spec_payout_events(params, ask.collection, price, royalty) + seq![
        MarketEvent::FinalizeSale {
            collection: ask.collection,
            token_id: ask.token_id,
            seller: ask.seller,
            buyer,
            price,
        },
    ]
}

/// Settles one sale of `ask` to `buyer` at `price`: appends the payout
/// transfers, the ownership-transfer instruction, the sale-hook fan-out
/// and the settlement event.  The ask may be transient (accept-bid) and
/// is never persisted here.  On a fee overflow nothing is appended.
pub fn finalize_sale(
    params: &SudoParams,
    ask: Ask,
    price: u128,
    buyer: String,
    finder: Option<String>,
    royalty_info: Option<RoyaltyInfo>,
    sale_hooks: &Vec<String>,
    res: &mut Response,
) -> (r: Result<(), ContractError>)
    requires
        params.wf(),
        ask.finders_fee_bps matches Some(b) ==> b <= 10000,
        royalty_info matches Some(ri) ==> ri.wf(),
    ensures
        r is Ok <==> !spec_fees_exceed(
            price,
            params.trading_fee_percent,
            finder is Some,
            ask.finders_fee_bps,
            royalty_info,
        ),
        r is Ok ==> final(res).messages@ == old(res).messages@ + spec_finalize_msgs(
            *params,
            ask,
            price,
            buyer,
            finder,
            royalty_info,
            sale_hooks@,
        ) && final(res).events@ == old(res).events@ + spec_finalize_events(
            *params,
            ask,
            price,
            buyer,
            royalty_info,
        ),
        r is Err ==> *final(res) == *old(res) && (r matches Err(e) && e matches ContractError::Std {
            msg,
        } && msg@ == "Fees exceed payment"@),
{
    let ghost buyer0 = buyer;
    let recipient = match &ask.funds_recipient {
        Some(addr) => addr.clone(),
        None => ask.seller.clone(),
    };
    let outcome = payout(
        params,
        &ask.collection,
        price,
        &recipient,
        &finder,
        ask.finders_fee_bps,
        royalty_info,
        res,
    );
    match outcome {
        Err(e) => {
            return Err(e);
        },
        Ok(()) => {},
    }
    res.messages.push(
        SubMsg {
            msg: MarketMsg::TransferNft {
                collection: ask.collection.clone(),
                token_id: ask.token_id,
                recipient: buyer.clone(),
            },
            reply_id: None,
        },
    );
    let payload = SaleHookMsg {
        collection: ask.collection.clone(),
        token_id: ask.token_id,
        price: Coin { denom: params.denom.clone(), amount: ask.price },
        seller: ask.seller.clone(),
        buyer: buyer.clone(),
    };
    let mut hook_msgs = prepare_sale_hook(sale_hooks, &payload);
    res.messages.append(&mut hook_msgs);
    res.events.push(
        MarketEvent::FinalizeSale {
            collection: ask.collection.clone(),
            token_id: ask.token_id,
            seller: ask.seller.clone(),
            buyer,
            price,
        },
    );
    proof {
        assert(res.messages@ =~= old(res).messages@ + spec_finalize_msgs(
            *params,
            ask,
            price,
            buyer0,
            finder,
            royalty_info,
            sale_hooks@,
        ));
        assert(res.events@ =~= old(res).events@ + spec_finalize_events(
            *params,
            ask,
            price,
            buyer0,
            royalty_info,
        ));
    }
    Ok(())
}

/// The ask record a set-ask request writes.
pub open spec fn spec_new_ask(sender: String, info: NFTinfo) -> Ask {
    Ask {
        sale_type: info.sale_type,
        collection: info.collection,
        token_id: info.token_id,
        seller: sender,
        price: info.price.amount,
        funds_recipient: info.funds_recipient,
        reserve_for: info.reserve_for,
        finders_fee_bps: info.finders_fee_bps,
        expires_at: info.expires,
        is_active: true,
    }
}

/// Creates (or overwrites, last-writer-wins) the ask for
/// (`collection`, `token_id`), after validating the price, the
/// marketplace's transfer approval (queried by the caller from the
/// ownership registry), the reservation, and the finder's-fee bound.
/// On success the new ask is active in the store and one creation
/// notification per registered ask hook is returned; on any error the
/// store is untouched.
pub fn execute_set_ask(
    params: &SudoParams,
    store: &mut OrderStore,
    ask_hooks: &Vec<String>,
    sender: String,
    ask_info: NFTinfo,
    has_transfer_approval: bool,
) -> (r: Result<Response, ContractError>)
    requires
        old(store).wf(),
        params.wf(),
    ensures
        final(store).wf(),
        r is Err ==> final(store).asks@ == old(store).asks@ && final(store).bids@ == old(
            store,
        ).bids@,
        ({
            let price_ok = ask_info.price.amount > 0 && ask_info.price.denom@ == params.denom@;
            let reserve_same = ask_info.reserve_for matches Some(rf) && rf@ == sender@;
            if !price_ok {
                r == Err::<Response, ContractError>(ContractError::InvalidPrice {})
            } else if !has_transfer_approval {
                r matches Err(e) && e matches ContractError::Std { msg } && msg@
                    == "transfer approval not found"@
            } else if reserve_same {
                r matches Err(e) && e matches ContractError::InvalidReserveAddress { reason }
                    && reason@ == "cannot reserve to the same address"@
            } else if ask_info.reserve_for is Some && ask_info.sale_type != SaleType::FixedPrice {
                r matches Err(e) && e matches ContractError::InvalidReserveAddress { reason }
                    && reason@ == "can only reserve for fixed_price sales"@
            } else if ask_info.finders_fee_bps matches Some(b) && b > params.max_finders_fee_bps {
                match ask_info.finders_fee_bps {
                    Some(b) => r == Err::<Response, ContractError>(
                        ContractError::InvalidFindersFeeBps(b),
                    ),
                    None => false,
                }
            } else {
                &&& r matches Ok(resp) && resp.messages@ == spec_ask_hook_submsgs(
                    ask_hooks@,
                    spec_new_ask(sender, ask_info),
                    HookAction::Create,
                ) && resp.events@ == seq![
                    MarketEvent::SetAsk {
                        collection: ask_info.collection,
                        token_id: ask_info.token_id,
                        sale_type: ask_info.sale_type,
                        reserve_for: ask_info.reserve_for,
                        seller: sender,
                        price: ask_info.price,
                        expires: ask_info.expires,
                    },
                ]
                &&& ask_at(final(store).asks@, ask_info.collection@, ask_info.token_id) == Some(
                    spec_new_ask(sender, ask_info),
                )
                &&& forall|c: Seq<char>, t: TokenId|
                    !(c == ask_info.collection@ && t == ask_info.token_id)
                        ==> #[trigger] ask_at(final(store).asks@, c, t) == ask_at(
                        old(store).asks@,
                        c,
                        t,
                    )
                &&& final(store).bids@ == old(store).bids@
            }
        }),
{
    match price_validate(params, &ask_info.price) {
        Err(e) => {
            return Err(e);
        },
        Ok(()) => {},
    }
    if !has_transfer_approval {
        return Err(ContractError::Std { msg: String::from_str("transfer approval not found") });
    }
    match &ask_info.reserve_for {
        Some(addr) => {
            if *addr == sender {
                return Err(
                    ContractError::InvalidReserveAddress {
                        reason: String::from_str("cannot reserve to the same address"),
                    },
                );
            }
            if !(ask_info.sale_type == SaleType::FixedPrice) {
                return Err(
                    ContractError::InvalidReserveAddress {
                        reason: String::from_str("can only reserve for fixed_price sales"),
                    },
                );
            }
        },
        None => {},
    }
    match ask_info.finders_fee_bps {
        Some(b) => {
            if b > params.max_finders_fee_bps {
                return Err(ContractError::InvalidFindersFeeBps(b));
            }
        },
        None => {},
    }
    let ask = Ask {
        sale_type: ask_info.sale_type,
        collection: ask_info.collection.clone(),
        token_id: ask_info.token_id,
        seller: sender.clone(),
        price: ask_info.price.amount,
        funds_recipient: match &ask_info.funds_recipient {
            Some(a) => Some(a.clone()),
            None => None,
        },
        reserve_for: match &ask_info.reserve_for {
            Some(a) => Some(a.clone()),
            None => None,
        },
        finders_fee_bps: ask_info.finders_fee_bps,
        expires_at: ask_info.expires,
        is_active: true,
    };
    proof {
        assert(ask == spec_new_ask(sender, ask_info));
    }
    store.put_ask(ask.clone());
    let mut hook = prepare_ask_hook(ask_hooks, &ask, HookAction::Create);
    let mut res = Response::new();
    res.messages.append(&mut hook);
    res.events.push(
        MarketEvent::SetAsk {
            collection: ask_info.collection,
            token_id: ask_info.token_id,
            sale_type: ask_info.sale_type,
            reserve_for: ask_info.reserve_for,
            seller: sender,
            price: ask_info.price,
            expires: ask_info.expires,
        },
    );
    proof {
        assert(res.messages@ =~= spec_ask_hook_submsgs(
            ask_hooks@,
            spec_new_ask(sender, ask_info),
            HookAction::Create,
        ));
    }
    Ok(res)
}

/// The bid-expiry policy: an expiry must lie strictly beyond the minimum
/// and at most the maximum distance from the current time.
pub open spec fn spec_bid_expiry_ok(params: SudoParams, now: u64, expires: u64) -> bool {
    now + params.bid_expiry_min < expires && expires <= now + params.bid_expiry_max
}

/// The refund of a superseded bid: its exact escrowed amount back to the
/// bidder, ahead of every other message of the request.
pub open spec fn spec_refund_msgs(prior: Option<Bid>, bidder: String, denom: String) -> Seq<SubMsg> {
    match prior {
        Some(b) => seq![
            SubMsg {
                msg: MarketMsg::Send { to_address: bidder, amount: b.price, denom },
                reply_id: None,
            },
        ],
        None => Seq::<SubMsg>::empty(),
    }
}

/// The bid record a set-bid request stores.
pub open spec fn spec_new_bid(sender: String, info: BidInfo, price: u128) -> Bid {
    Bid {
        collection: info.collection,
        token_id: info.token_id,
        bidder: sender,
        price,
        finder: info.finder,
        finders_fee_bps: info.finders_fee_bps,
        expires_at: info.expires,
    }
}

/// An incoming bid settles at once exactly when a fixed-price ask stands
/// and the bid meets its price to the unit.
pub open spec fn spec_bid_settles(ask: Option<Ask>, price: u128) -> bool {
    ask matches Some(a) && a.sale_type == SaleType::FixedPrice && price == a.price
}

/// An incoming bid becomes a standing bid when no ask stands, when it
/// underbids a fixed-price ask, or when it meets or outbids an auction
/// ask (auctions settle only by explicit acceptance).
pub open spec fn spec_bid_stored(ask: Option<Ask>, price: u128) -> bool {
    match ask {
        None => true,
        Some(a) => match a.sale_type {
            SaleType::FixedPrice => price < a.price,
            SaleType::Auction => price >= a.price,
        },
    }
}

/// The observability event of every accepted set-bid request.
pub open spec fn spec_set_bid_event(
    sale_type: SaleType,
    sender: String,
    info: BidInfo,
    price: u128,
) -> MarketEvent {
    MarketEvent::SetBid {
        collection: info.collection,
        sale_type,
        token_id: info.token_id,
        bidder: sender,
        bid_price: price,
        expires: info.expires,
    }
}

/// Everything that holds after a set-bid request stored a standing bid:
/// the superseded bid (if any) was refunded first, the new bid stands
/// under its key, every other order is untouched, and one creation
/// notification per bid hook went out.
pub open spec fn spec_stored_outcome(
    r: Result<Response, ContractError>,
    old_store: OrderStore,
    new_store: OrderStore,
    params: SudoParams,
    bid_hooks: Seq<String>,
    sale_type: SaleType,
    sender: String,
    info: BidInfo,
    price: u128,
    prior_bid: Option<Bid>,
) -> bool {
    let nb = spec_new_bid(sender, info, price);
    &&& r matches Ok(resp) && resp.messages@ == spec_refund_msgs(prior_bid, sender, params.denom)
        + spec_bid_hook_submsgs(bid_hooks, nb, HookAction::Create) && resp.events@ == seq![
        spec_set_bid_event(sale_type, sender, info, price),
    ]
    &&& bid_at(new_store.bids@, info.collection@, info.token_id, sender@) == Some(nb)
    &&& forall|c: Seq<char>, t: TokenId, b: Seq<char>|
        !(c == info.collection@ && t == info.token_id && b == sender@) ==> #[trigger] bid_at(
            new_store.bids@,
            c,
            t,
            b,
        ) == bid_at(old_store.bids@, c, t, b)
    &&& new_store.asks@ == old_store.asks@
}

/// Everything that holds after a set-bid request settled a fixed-price
/// sale: the superseded bid (if any) was refunded first, the ask and the
/// bidder's bid are gone, no bid was stored for the settling payment, and
/// the full settlement batch went out.
pub open spec fn spec_settled_outcome(
    r: Result<Response, ContractError>,
    old_store: OrderStore,
    new_store: OrderStore,
    params: SudoParams,
    sale_hooks: Seq<String>,
    sale_type: SaleType,
    sender: String,
    info: BidInfo,
    price: u128,
    royalty: Option<RoyaltyInfo>,
    a: Ask,
    prior_bid: Option<Bid>,
) -> bool {
    &&& r matches Ok(resp) && resp.messages@ == spec_refund_msgs(prior_bid, sender, params.denom)
        + spec_finalize_msgs(params, a, price, sender, info.finder, royalty, sale_hooks)
        && resp.events@ == spec_finalize_events(params, a, price, sender, royalty) + seq![
        spec_set_bid_event(sale_type, sender, info, price),
    ]
    &&& ask_at(new_store.asks@, info.collection@, info.token_id) is None
    &&& forall|c: Seq<char>, t: TokenId|
        !(c == info.collection@ && t == info.token_id) ==> #[trigger] ask_at(new_store.asks@, c, t)
            == ask_at(old_store.asks@, c, t)
    &&& bid_at(new_store.bids@, info.collection@, info.token_id, sender@) is None
    &&& forall|c: Seq<char>, t: TokenId, b: Seq<char>|
        !(c == info.collection@ && t == info.token_id && b == sender@) ==> #[trigger] bid_at(
            new_store.bids@,
            c,
            t,
            b,
        ) == bid_at(old_store.bids@, c, t, b)
}

/// The set-bid / buy-now transition of the matching engine.
///
/// The caller escrows `funds` with the request and queries the ownership
/// registry for the token's current owner (`current_owner`, `None` when
/// the query failed) and the metadata provider for the collection's
/// royalty terms (`royalty_info`, `None` when absent or failed).
///
/// After validation, a bidder's previous bid on the token is refunded and
/// superseded atomically with the new outcome; against a fixed-price ask
/// an exact price match settles at once, a lower bid stands, a higher one
/// is rejected; against an auction ask a bid at or above the ask price
/// stands and a lower one is rejected; with no ask a plain bid stands
/// while buy-now is rejected.  Any error leaves the store untouched.
pub fn execute_set_bid(
    params: &SudoParams,
    store: &mut OrderStore,
    bid_hooks: &Vec<String>,
    sale_hooks: &Vec<String>,
    now: u64,
    sender: String,
    funds: Vec<Coin>,
    sale_type: SaleType,
    bid_info: BidInfo,
    buy_now: bool,
    current_owner: Option<String>,
    royalty_info: Option<RoyaltyInfo>,
) -> (r: Result<Response, ContractError>)
    requires
        old(store).wf(),
        params.wf(),
        royalty_info matches Some(ri) ==> ri.wf(),
    ensures
        final(store).wf(),
        r is Err ==> final(store).asks@ == old(store).asks@ && final(store).bids@ == old(
            store,
        ).bids@,
        ({
            let prior_ask = ask_at(old(store).asks@, bid_info.collection@, bid_info.token_id);
            let prior_bid = bid_at(
                old(store).bids@,
                bid_info.collection@,
                bid_info.token_id,
                sender@,
            );
            if bid_info.finder matches Some(f) && f@ == sender@ {
                r matches Err(e) && e matches ContractError::InvalidFinder { reason } && reason@
                    == "bidder cannot be finder"@
            } else {
                match spec_must_pay(funds@, params.denom@) {
                    Err(pi) => r == Err::<Response, ContractError>(ContractError::Payment(pi)),
                    Ok(p) => if p < params.min_price {
                        r == Err::<Response, ContractError>(ContractError::PriceTooSmall(p))
                    } else if !spec_bid_expiry_ok(*params, now, bid_info.expires) {
                        r == Err::<Response, ContractError>(ContractError::InvalidExpirationRange {})
                    } else if bid_info.finders_fee_bps matches Some(b) && b
                        > params.max_finders_fee_bps {
                        match bid_info.finders_fee_bps {
                            Some(b) => r == Err::<Response, ContractError>(
                                ContractError::InvalidFindersFeeBps(b),
                            ),
                            None => false,
                        }
                    } else {
                        match prior_ask {
                            Some(a) => if a.spec_is_expired(now) {
                                r == Err::<Response, ContractError>(ContractError::AskExpired {})
                            } else if !a.is_active {
                                r == Err::<Response, ContractError>(ContractError::AskNotActive {})
                            } else if a.reserve_for matches Some(rsv) && rsv@ != sender@ {
                                r == Err::<Response, ContractError>(ContractError::TokenReserved {})
                            } else if spec_bid_settles(prior_ask, p) {
                                if !(current_owner matches Some(o) && o@ == a.seller@) {
                                    r == Err::<Response, ContractError>(
                                        ContractError::InvalidListing {},
                                    )
                                } else if spec_fees_exceed(
                                    p,
                                    params.trading_fee_percent,
                                    bid_info.finder is Some,
                                    a.finders_fee_bps,
                                    royalty_info,
                                ) {
                                    r matches Err(e) && e matches ContractError::Std { msg }
                                        && msg@ == "Fees exceed payment"@
                                } else {
                                    spec_settled_outcome(
                                        r,
                                        *old(store),
                                        *final(store),
                                        *params,
                                        sale_hooks@,
                                        sale_type,
                                        sender,
                                        bid_info,
                                        p,
                                        royalty_info,
                                        a,
                                        prior_bid,
                                    )
                                }
                            } else if spec_bid_stored(prior_ask, p) {
                                spec_stored_outcome(
                                    r,
                                    *old(store),
                                    *final(store),
                                    *params,
                                    bid_hooks@,
                                    sale_type,
                                    sender,
                                    bid_info,
                                    p,
                                    prior_bid,
                                )
                            } else {
                                r == Err::<Response, ContractError>(ContractError::InvalidPrice {})
                            },
                            None => if buy_now {
                                r == Err::<Response, ContractError>(ContractError::ItemNotForSale {})
                            } else {
                                spec_stored_outcome(
                                    r,
                                    *old(store),
                                    *final(store),
                                    *params,
                                    bid_hooks@,
                                    sale_type,
                                    sender,
                                    bid_info,
                                    p,
                                    prior_bid,
                                )
                            },
                        }
                    },
                }
            }
        }),
{
    let ghost sender0 = sender;
    let ghost info0 = bid_info;
    match &bid_info.finder {
        Some(f) => {
            if *f == sender {
                return Err(
                    ContractError::InvalidFinder {
                        reason: String::from_str("bidder cannot be finder"),
                    },
                );
            }
        },
        None => {},
    }
    let bid_price = match must_pay(&funds, &params.denom) {
        Ok(amount) => amount,
        Err(pi) => {
            return Err(ContractError::Payment(pi));
        },
    };
    if bid_price < params.min_price {
        return Err(ContractError::PriceTooSmall(bid_price));
    }
    let in_window = (bid_info.expires as u128) > (now as u128) + (params.bid_expiry_min as u128)
        && (bid_info.expires as u128) <= (now as u128) + (params.bid_expiry_max as u128);
    if !in_window {
        return Err(ContractError::InvalidExpirationRange {});
    }
    match bid_info.finders_fee_bps {
        Some(b) => {
            if b > params.max_finders_fee_bps {
                return Err(ContractError::InvalidFindersFeeBps(b));
            }
        },
        None => {},
    }
    let prior_bid_price: Option<u128> = match store.get_bid(
        &bid_info.collection,
        bid_info.token_id,
        &sender,
    ) {
        Some(b) => Some(b.price),
        None => None,
    };
    let ghost prior_bid = bid_at(store.bids@, bid_info.collection@, bid_info.token_id, sender@);
    let existing_ask: Option<Ask> = match store.get_ask(&bid_info.collection, bid_info.token_id) {
        Some(a) => Some(a.clone()),
        None => None,
    };
    match &existing_ask {
        Some(a) => {
            if a.is_expired(now) {
                return Err(ContractError::AskExpired {});
            }
            if !a.is_active {
                return Err(ContractError::AskNotActive {});
            }
            match &a.reserve_for {
                Some(rsv) => {
                    if !(*rsv == sender) {
                        return Err(ContractError::TokenReserved {});
                    }
                },
                None => {},
            }
        },
        None => {
            if buy_now {
                return Err(ContractError::ItemNotForSale {});
            }
        },
    }
    match &existing_ask {
        Some(a) => {
            if a.sale_type == SaleType::FixedPrice {
                if bid_price > a.price {
                    return Err(ContractError::InvalidPrice {});
                }
                if bid_price == a.price {
                    // exact match: settle, storing no bid for this payment
                    let owner_matches = match &current_owner {
                        Some(o) => *o == a.seller,
                        None => false,
                    };
                    if !owner_matches {
                        return Err(ContractError::InvalidListing {});
                    }
                    let mut res = Response::new();
                    match prior_bid_price {
                        Some(amount) => {
                            res.messages.push(
                                SubMsg {
                                    msg: MarketMsg::Send {
                                        to_address: sender.clone(),
                                        amount,
                                        denom: params.denom.clone(),
                                    },
                                    reply_id: None,
                                },
                            );
                        },
                        None => {},
                    }
                    let finder_for_sale = match &bid_info.finder {
                        Some(f) => Some(f.clone()),
                        None => None,
                    };
                    match finalize_sale(
                        params,
                        a.clone(),
                        bid_price,
                        sender.clone(),
                        finder_for_sale,
                        royalty_info,
                        sale_hooks,
                        &mut res,
                    ) {
                        Err(e) => {
                            return Err(e);
                        },
                        Ok(()) => {},
                    }
                    store.remove_ask(&bid_info.collection, bid_info.token_id);
                    store.remove_bid(&bid_info.collection, bid_info.token_id, &sender);
                    res.events.push(
                        MarketEvent::SetBid {
                            collection: bid_info.collection,
                            sale_type,
                            token_id: bid_info.token_id,
                            bidder: sender,
                            bid_price,
                            expires: bid_info.expires,
                        },
                    );
                    proof {
                        assert(res.messages@ =~= spec_refund_msgs(
                            prior_bid,
                            sender0,
                            params.denom,
                        ) + spec_finalize_msgs(
                            *params,
                            existing_ask->Some_0,
                            bid_price,
                            sender0,
                            info0.finder,
                            royalty_info,
                            sale_hooks@,
                        ));
                        assert(res.events@ =~= spec_finalize_events(
                            *params,
                            existing_ask->Some_0,
                            bid_price,
                            sender0,
                            royalty_info,
                        ) + seq![spec_set_bid_event(sale_type, sender0, info0, bid_price)]);
                    }
                    return Ok(res);
                }
                // a lower bid becomes a standing bid below
            } else {
                if bid_price < a.price {
                    return Err(ContractError::InvalidPrice {});
                }
                // at or above the auction ask price: stored below
            }
        },
        None => {},
    }
    let new_bid = Bid {
        collection: bid_info.collection.clone(),
        token_id: bid_info.token_id,
        bidder: sender.clone(),
        price: bid_price,
        finder: match &bid_info.finder {
            Some(f) => Some(f.clone()),
            None => None,
        },
        finders_fee_bps: bid_info.finders_fee_bps,
        expires_at: bid_info.expires,
    };
    proof {
        assert(new_bid == spec_new_bid(sender0, info0, bid_price));
    }
    store.put_bid(new_bid.clone());
    let mut res = Response::new();
    match prior_bid_price {
        Some(amount) => {
            res.messages.push(
                SubMsg {
                    msg: MarketMsg::Send {
                        to_address: sender.clone(),
                        amount,
                        denom: params.denom.clone(),
                    },
                    reply_id: None,
                },
            );
        },
        None => {},
    }
    let mut hook = prepare_bid_hook(bid_hooks, &new_bid, HookAction::Create);
    res.messages.append(&mut hook);
    res.events.push(
        MarketEvent::SetBid {
            collection: bid_info.collection,
            sale_type,
            token_id: bid_info.token_id,
            bidder: sender,
            bid_price,
            expires: bid_info.expires,
        },
    );
    proof {
        assert(res.messages@ =~= spec_refund_msgs(prior_bid, sender0, params.denom)
            + spec_bid_hook_submsgs(
            bid_hooks@,
            spec_new_bid(sender0, info0, bid_price),
            HookAction::Create,
        ));
    }
    Ok(res)
}

/// The transient ask synthesized by accept-bid purely to reuse the
/// settlement contract; it is never persisted.
pub open spec fn spec_transient_ask(
    sender: String,
    collection: String,
    token_id: TokenId,
    b: Bid,
) -> Ask {
    Ask {
        sale_type: SaleType::Auction,
        collection,
        token_id,
        seller: sender,
        price: b.price,
        funds_recipient: Some(sender),
        reserve_for: None,
        finders_fee_bps: b.finders_fee_bps,
        expires_at: b.expires_at,
        is_active: true,
    }
}

/// Everything that holds after a seller accepted a bid: any ask for the
/// token and the accepted bid are gone, every other order is untouched,
/// and the full settlement batch — computed against the transient ask,
/// with the bid's price, buyer and finder — went out.
pub open spec fn spec_accepted_outcome(
    r: Result<Response, ContractError>,
    old_store: OrderStore,
    new_store: OrderStore,
    params: SudoParams,
    sale_hooks: Seq<String>,
    sender: String,
    collection: String,
    token_id: TokenId,
    bidder: String,
    royalty: Option<RoyaltyInfo>,
    b: Bid,
) -> bool {
    let ask = spec_transient_ask(sender, collection, token_id, b);
    &&& r matches Ok(resp) && resp.messages@ == spec_finalize_msgs(
        params,
        ask,
        b.price,
        bidder,
        b.finder,
        royalty,
        sale_hooks,
    ) && resp.events@ == spec_finalize_events(params, ask, b.price, bidder, royalty) + seq![
        MarketEvent::AcceptBid { collection, token_id, bidder, price: b.price },
    ]
    &&& ask_at(new_store.asks@, collection@, token_id) is None
    &&& forall|c: Seq<char>, t: TokenId|
        !(c == collection@ && t == token_id) ==> #[trigger] ask_at(new_store.asks@, c, t) == ask_at(
            old_store.asks@,
            c,
            t,
        )
    &&& bid_at(new_store.bids@, collection@, token_id, bidder@) is None
    &&& forall|c: Seq<char>, t: TokenId, bd: Seq<char>|
        !(c == collection@ && t == token_id && bd == bidder@) ==> #[trigger] bid_at(
            new_store.bids@,
            c,
            t,
            bd,
        ) == bid_at(old_store.bids@, c, t, bd)
}

/// The accept-bid transition: the seller of a token accepts the standing
/// bid of `bidder` on it, under either sale policy.
///
/// The request must carry no funds; the caller must be the token's
/// current on-chain owner (`current_owner` is the ownership registry's
/// answer, `None` when the query failed); and the collection must permit
/// trading (`start_trading_time` as the metadata provider reported it —
/// absent means tradable).  An expired bid is rejected with the bid and
/// any ask untouched, as is every other failure.
pub fn execute_accept_bid(
    params: &SudoParams,
    store: &mut OrderStore,
    sale_hooks: &Vec<String>,
    now: u64,
    sender: String,
    funds: Vec<Coin>,
    collection: String,
    token_id: TokenId,
    bidder: String,
    current_owner: Option<String>,
    start_trading_time: Option<u64>,
    royalty_info: Option<RoyaltyInfo>,
) -> (r: Result<Response, ContractError>)
    requires
        old(store).wf(),
        params.wf(),
        royalty_info matches Some(ri) ==> ri.wf(),
    ensures
        final(store).wf(),
        r is Err ==> final(store).asks@ == old(store).asks@ && final(store).bids@ == old(
            store,
        ).bids@,
        ({
            let prior_bid = bid_at(old(store).bids@, collection@, token_id, bidder@);
            if funds@.len() != 0 {
                r == Err::<Response, ContractError>(
                    ContractError::Payment(PaymentIssue::NonPayable),
                )
            } else if current_owner is None {
                r matches Err(e) && e matches ContractError::Std { msg } && msg@
                    == "owner query failed"@
            } else if !(current_owner matches Some(o) && o@ == sender@) {
                r == Err::<Response, ContractError>(ContractError::UnauthorizedOwner {})
            } else if start_trading_time matches Some(t) && t > now {
                r == Err::<Response, ContractError>(ContractError::CollectionNotTradable {})
            } else {
                match prior_bid {
                    None => r == Err::<Response, ContractError>(ContractError::BidNotFound {}),
                    Some(b) => if b.spec_is_expired(now) {
                        r == Err::<Response, ContractError>(ContractError::BidExpired {})
                    } else if spec_fees_exceed(
                        b.price,
                        params.trading_fee_percent,
                        b.finder is Some,
                        b.finders_fee_bps,
                        royalty_info,
                    ) {
                        r matches Err(e) && e matches ContractError::Std { msg } && msg@
                            == "Fees exceed payment"@
                    } else {
                        spec_accepted_outcome(
                            r,
                            *old(store),
                            *final(store),
                            *params,
                            sale_hooks@,
                            sender,
                            collection,
                            token_id,
                            bidder,
                            royalty_info,
                            b,
                        )
                    },
                }
            }
        }),
{
    let ghost sender0 = sender;
    let ghost collection0 = collection;
    let ghost bidder0 = bidder;
    if !nonpayable(&funds) {
        return Err(ContractError::Payment(PaymentIssue::NonPayable));
    }
    match only_owner(&sender, &current_owner) {
        Err(e) => {
            return Err(e);
        },
        Ok(()) => {},
    }
    match only_tradable(now, &start_trading_time) {
        Err(e) => {
            return Err(e);
        },
        Ok(_) => {},
    }
    let bid: Bid = match store.get_bid(&collection, token_id, &bidder) {
        Some(b) => b.clone(),
        None => {
            return Err(ContractError::BidNotFound {});
        },
    };
    if bid.is_expired(now) {
        return Err(ContractError::BidExpired {});
    }
    // the transient ask, reusing the settlement contract; never persisted
    let ask = Ask {
        sale_type: SaleType::Auction,
        collection: collection.clone(),
        token_id,
        seller: sender.clone(),
        price: bid.price,
        funds_recipient: Some(sender.clone()),
        reserve_for: None,
        finders_fee_bps: bid.finders_fee_bps,
        expires_at: bid.expires_at,
        is_active: true,
    };
    proof {
        assert(ask == spec_transient_ask(sender0, collection0, token_id, bid));
    }
    let finder = match &bid.finder {
        Some(f) => Some(f.clone()),
        None => None,
    };
    let mut res = Response::new();
    match finalize_sale(
        params,
        ask,
        bid.price,
        bidder.clone(),
        finder,
        royalty_info,
        sale_hooks,
        &mut res,
    ) {
        Err(e) => {
            return Err(e);
        },
        Ok(()) => {},
    }
    store.remove_ask(&collection, token_id);
    store.remove_bid(&collection, token_id, &bidder);
    res.events.push(
        MarketEvent::AcceptBid { collection, token_id, bidder, price: bid.price },
    );
    proof {
        let ta = spec_transient_ask(sender0, collection0, token_id, bid);
        assert(res.messages@ =~= spec_finalize_msgs(
            *params,
            ta,
            bid.price,
            bidder0,
            bid.finder,
            royalty_info,
            sale_hooks@,
        ));
        assert(res.events@ =~= spec_finalize_events(*params, ta, bid.price, bidder0, royalty_info)
            + seq![
            MarketEvent::AcceptBid {
                collection: collection0,
                token_id,
                bidder: bidder0,
                price: bid.price,
            },
        ]);
    }
    Ok(res)
}

/// Fixed-price matching law: against a fixed-price ask, settlement fires
/// exactly at the ask price to the unit; a lower bid always becomes a
/// standing bid, never a settlement; a higher bid is neither settled nor
/// stored (`execute_set_bid` rejects it with the price error).
pub proof fn lemma_fixed_price_exact_match(a: Ask, price: u128)
    requires
        a.sale_type == SaleType::FixedPrice,
    ensures
        spec_bid_settles(Some(a), price) <==> price == a.price,
        spec_bid_stored(Some(a), price) <==> price < a.price,
        price > a.price ==> !spec_bid_settles(Some(a), price) && !spec_bid_stored(Some(a), price),
{
}

/// Auction matching law: a bid below the ask price is neither settled nor
/// stored (`execute_set_bid` rejects it); at or above the ask price it is
/// always stored and never auto-settled — auctions settle only through
/// explicit acceptance.
pub proof fn lemma_auction_bids_never_autosettle(a: Ask, price: u128)
    requires
        a.sale_type == SaleType::Auction,
    ensures
        !spec_bid_settles(Some(a), price),
        spec_bid_stored(Some(a), price) <==> price >= a.price,
{
}

/// Supersession law: when a bidder who already holds a live bid on a token
/// places another and it is stored, the response's first message refunds
/// the prior bid's exact escrowed amount, atomically with storing the new
/// bid — the store then holds the new bid alone under that key.
pub proof fn lemma_second_bid_refunds_first(
    r: Result<Response, ContractError>,
    old_store: OrderStore,
    new_store: OrderStore,
    params: SudoParams,
    bid_hooks: Seq<String>,
    sale_type: SaleType,
    sender: String,
    info: BidInfo,
    price: u128,
    prior: Bid,
)
    requires
        bid_at(old_store.bids@, info.collection@, info.token_id, sender@) == Some(prior),
        spec_stored_outcome(
            r,
            old_store,
            new_store,
            params,
            bid_hooks,
            sale_type,
            sender,
            info,
            price,
            Some(prior),
        ),
    ensures
        r matches Ok(resp) && resp.messages@.len() >= 1 && resp.messages@[0] == (SubMsg {
            msg: MarketMsg::Send { to_address: sender, amount: prior.price, denom: params.denom },
            reply_id: None,
        }),
        bid_at(new_store.bids@, info.collection@, info.token_id, sender@) == Some(
            spec_new_bid(sender, info, price),
        ),
{
}

} // verus!
