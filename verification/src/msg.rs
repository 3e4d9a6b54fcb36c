//! The plain-value shapes this core exchanges with its surroundings: the
//! effect batch (messages and events) it produces, and the hook payloads
//! delivered to registered subscribers.

use crate::state::{Ask, Bid, Coin, SaleType, TokenId};
use vstd::prelude::*;

verus! {

#[derive(Debug, PartialEq)]
pub struct InstantiateMsg {}

/// The query surface is empty: this core answers no queries.
#[derive(Debug, PartialEq)]
pub struct QueryMsg {}

/// Which lifecycle step a hook notification reports.
#[derive(Clone, Copy, PartialEq, Eq, Structural, Debug)]
pub enum HookAction {
    Create,
    Update,
    Delete,
}

/// Tags for hook submessages, so that one subscriber's failure response is
/// caught per message and never unwinds the whole request.
#[derive(Clone, Copy, PartialEq, Eq, Structural, Debug)]
pub enum HookReply {
    Ask,
    Sale,
    Bid,
    CollectionBid,
}

impl HookReply {
    pub open spec fn spec_reply_id(self) -> u64 {
        match self {
            HookReply::Ask => 1,
            HookReply::Sale => 2,
            HookReply::Bid => 3,
            HookReply::CollectionBid => 4,
        }
    }

    pub fn reply_id(&self) -> (id: u64)
        ensures
            id == self.spec_reply_id(),
    {
        match self {
            HookReply::Ask => 1,
            HookReply::Sale => 2,
            HookReply::Bid => 3,
            HookReply::CollectionBid => 4,
        }
    }

    /// The tag a reply identifier stands for, if any.
    pub fn from_id(id: u64) -> (r: Option<HookReply>)
        ensures
            match r {
                Some(h) => h.spec_reply_id() == id,
                None => id == 0 || id > 4,
            },
    {
        match id {
            1 => Some(HookReply::Ask),
            2 => Some(HookReply::Sale),
            3 => Some(HookReply::Bid),
            4 => Some(HookReply::CollectionBid),
            _ => None,
        }
    }
}

/// Payload of a bid lifecycle notification.
#[derive(Debug, PartialEq)]
pub struct BidHookMsg {
    pub bid: Bid,
}

/// Envelope around a bid notification naming the lifecycle step.
#[derive(Debug, PartialEq)]
pub enum BidExecuteMsg {
    BidCreatedHook(BidHookMsg),
    BidUpdatedHook(BidHookMsg),
    BidDeletedHook(BidHookMsg),
}

pub open spec fn spec_bid_hook_wrap(action: HookAction, m: BidHookMsg) -> BidExecuteMsg {
    match action {
        HookAction::Create => BidExecuteMsg::BidCreatedHook(m),
        HookAction::Update => BidExecuteMsg::BidUpdatedHook(m),
        HookAction::Delete => BidExecuteMsg::BidDeletedHook(m),
    }
}

impl BidHookMsg {
    pub fn new(bid: Bid) -> (m: BidHookMsg)
        ensures
            m == (BidHookMsg { bid }),
    {
        BidHookMsg { bid }
    }

    /// Wraps the payload in the envelope variant for `action`; the edge
    /// serializes the result when delivering it.
    pub fn into_execute_msg(self, action: HookAction) -> (m: BidExecuteMsg)
        ensures
            m == spec_bid_hook_wrap(action, self),
    {
        match action {
            HookAction::Create => BidExecuteMsg::BidCreatedHook(self),
            HookAction::Update => BidExecuteMsg::BidUpdatedHook(self),
            HookAction::Delete => BidExecuteMsg::BidDeletedHook(self),
        }
    }
}

/// Payload of an ask lifecycle notification.
#[derive(Debug, PartialEq)]
pub struct AskHookMsg {
    pub ask: Ask,
}

/// Envelope around an ask notification naming the lifecycle step.
#[derive(Debug, PartialEq)]
pub enum AskHookExecuteMsg {
    AskCreatedHook(AskHookMsg),
    AskUpdatedHook(AskHookMsg),
    AskDeletedHook(AskHookMsg),
}

pub open spec fn spec_ask_hook_wrap(action: HookAction, m: AskHookMsg) -> AskHookExecuteMsg {
    match action {
        HookAction::Create => AskHookExecuteMsg::AskCreatedHook(m),
        HookAction::Update => AskHookExecuteMsg::AskUpdatedHook(m),
        HookAction::Delete => AskHookExecuteMsg::AskDeletedHook(m),
    }
}

impl AskHookMsg {
    pub fn new(ask: Ask) -> (m: AskHookMsg)
        ensures
            m == (AskHookMsg { ask }),
    {
        AskHookMsg { ask }
    }

    /// Wraps the payload in the envelope variant for `action`.
    pub fn into_execute_msg(self, action: HookAction) -> (m: AskHookExecuteMsg)
        ensures
            m == spec_ask_hook_wrap(action, self),
    {
        match action {
            HookAction::Create => AskHookExecuteMsg::AskCreatedHook(self),
            HookAction::Update => AskHookExecuteMsg::AskUpdatedHook(self),
            HookAction::Delete => AskHookExecuteMsg::AskDeletedHook(self),
        }
    }
}

/// Payload of a completed-sale notification.
#[derive(Debug, PartialEq)]
pub struct SaleHookMsg {
    pub collection: String,
    pub token_id: TokenId,
    pub price: Coin,
    pub seller: String,
    pub buyer: String,
}

/// Envelope around a sale notification.
#[derive(Debug, PartialEq)]
pub enum SaleExecuteMsg {
    SaleHook(SaleHookMsg),
}

impl SaleHookMsg {
    pub fn new(collection: String, token_id: TokenId, price: Coin, seller: String, buyer: String) -> (m:
        SaleHookMsg)
        ensures
            m == (SaleHookMsg { collection, token_id, price, seller, buyer }),
    {
        SaleHookMsg { collection, token_id, price, seller, buyer }
    }

    /// Wraps the payload in its envelope.
    pub fn into_execute_msg(self) -> (m: SaleExecuteMsg)
        ensures
            m == SaleExecuteMsg::SaleHook(self),
    {
        SaleExecuteMsg::SaleHook(self)
    }
}

/// One outgoing instruction of the atomic effect batch.
#[derive(Debug, PartialEq)]
pub enum MarketMsg {
    /// Removal of the network fee to the fee-burn sink.
    FairBurn { amount: u128 },
    /// A fund transfer of `amount` of `denom` to `to_address`.
    Send { to_address: String, amount: u128, denom: String },
    /// Instruct the collection contract to move the token to `recipient`.
    TransferNft { collection: String, token_id: TokenId, recipient: String },
    /// Outbound call to one ask-hook subscriber.
    AskHook { contract_addr: String, msg: AskHookExecuteMsg },
    /// Outbound call to one bid-hook subscriber.
    BidHook { contract_addr: String, msg: BidExecuteMsg },
    /// Outbound call to one sale-hook subscriber.
    SaleHook { contract_addr: String, msg: SaleExecuteMsg },
}

/// A message of the effect batch.  With `reply_id == Some(id)` a failure
/// response is reported back under `id` and does not unwind the request;
/// with `None` it is fired without reply.
#[derive(Debug, PartialEq)]
pub struct SubMsg {
    pub msg: MarketMsg,
    pub reply_id: Option<u64>,
}

impl SubMsg {
    pub fn new(msg: MarketMsg) -> (m: SubMsg)
        ensures
            m == (SubMsg { msg, reply_id: None }),
    {
        SubMsg { msg, reply_id: None }
    }

    pub fn reply_on_error(msg: MarketMsg, id: u64) -> (m: SubMsg)
        ensures
            m == (SubMsg { msg, reply_id: Some(id) }),
    {
        SubMsg { msg, reply_id: Some(id) }
    }
}

/// A structured observability event appended to the outgoing event log.
#[derive(Debug, PartialEq)]
pub enum MarketEvent {
    SetAsk {
        collection: String,
        token_id: TokenId,
        sale_type: SaleType,
        reserve_for: Option<String>,
        seller: String,
        price: Coin,
        expires: u64,
    },
    SetBid {
        collection: String,
        sale_type: SaleType,
        token_id: TokenId,
        bidder: String,
        bid_price: u128,
        expires: u64,
    },
    FinalizeSale { collection: String, token_id: TokenId, seller: String, buyer: String, price: u128 },
    AcceptBid { collection: String, token_id: TokenId, bidder: String, price: u128 },
    RoyaltyPayout { collection: String, amount: u128, denom: String, recipient: String },
}

/// The atomic effect batch a successful request returns: fund transfers,
/// the ownership transfer, hook calls, and observability events.  It is
/// applied by the surrounding execution environment as a single unit.
#[derive(Debug, PartialEq)]
pub struct Response {
    pub messages: Vec<SubMsg>,
    pub events: Vec<MarketEvent>,
}

impl Response {
    pub fn new() -> (r: Response)
        ensures
            r.messages@ == Seq::<SubMsg>::empty(),
            r.events@ == Seq::<MarketEvent>::empty(),
    {
        Response { messages: Vec::new(), events: Vec::new() }
    }
}

/// The submessages one ask notification fans out to `hooks`, in
/// registration order.
pub open spec fn spec_ask_hook_submsgs(hooks: Seq<String>, ask: Ask, action: HookAction) -> Seq<
    SubMsg,
> {
    Seq::new(
        hooks.len(),
        |i: int|
            SubMsg {
                msg: MarketMsg::AskHook {
                    contract_addr: hooks[i],
                    msg: spec_ask_hook_wrap(action, AskHookMsg { ask }),
                },
                reply_id: Some(HookReply::Ask.spec_reply_id()),
            },
    )
}

/// The submessages one bid notification fans out to `hooks`.
pub open spec fn spec_bid_hook_submsgs(hooks: Seq<String>, bid: Bid, action: HookAction) -> Seq<
    SubMsg,
> {
    Seq::new(
        hooks.len(),
        |i: int|
            SubMsg {
                msg: MarketMsg::BidHook {
                    contract_addr: hooks[i],
                    msg: spec_bid_hook_wrap(action, BidHookMsg { bid }),
                },
                reply_id: Some(HookReply::Bid.spec_reply_id()),
            },
    )
}

/// The submessages one sale notification fans out to `hooks`.
pub open spec fn spec_sale_hook_submsgs(hooks: Seq<String>, m: SaleHookMsg) -> Seq<SubMsg> {
    Seq::new(
        hooks.len(),
        |i: int|
            SubMsg {
                msg: MarketMsg::SaleHook {
                    contract_addr: hooks[i],
                    msg: SaleExecuteMsg::SaleHook(m),
                },
                reply_id: Some(HookReply::Sale.spec_reply_id()),
            },
    )
}

} // verus!
