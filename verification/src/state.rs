//! Order book state: asks, bids, the store that owns them, and the
//! externally supplied marketplace parameters.

use vstd::prelude::*;

verus! {

pub type TokenId = u32;

/// Sale policy of an ask.
#[derive(Clone, Copy, PartialEq, Eq, Structural, Debug)]
pub enum SaleType {
    FixedPrice,
    Auction,
}

impl SaleType {
    pub open spec fn spec_label(self) -> Seq<char> {
        match self {
            SaleType::FixedPrice => "fixed_price"@,
            SaleType::Auction => "auction"@,
        }
    }

    /// The textual name of the policy, as it appears in emitted events.
    pub fn label(&self) -> (s: &'static str)
        ensures
            s@ == self.spec_label(),
    {
        match self {
            SaleType::FixedPrice => "fixed_price",
            SaleType::Auction => "auction",
        }
    }
}

/// An amount of one currency.
#[derive(Debug, PartialEq)]
pub struct Coin {
    pub denom: String,
    pub amount: u128,
}

impl Clone for Coin {
    fn clone(&self) -> (c: Coin)
        ensures
            c == *self,
    {
        Coin { denom: self.denom.clone(), amount: self.amount }
    }
}

/// Marketplace parameters, supplied externally and read-only to this core.
#[derive(Debug)]
pub struct SudoParams {
    /// The settlement currency identifier.
    pub denom: String,
    /// The least price a bid may carry.
    pub min_price: u128,
    /// Least allowed distance of a bid's expiry from the current time.
    pub bid_expiry_min: u64,
    /// Greatest allowed distance of a bid's expiry from the current time.
    pub bid_expiry_max: u64,
    /// Greatest allowed finder's-fee rate, in basis points.
    pub max_finders_fee_bps: u64,
    /// Trading-fee percentage removed from every sale.
    pub trading_fee_percent: u64,
}

impl SudoParams {
    pub open spec fn wf(self) -> bool {
        &&& self.trading_fee_percent <= 100
        &&& self.max_finders_fee_bps <= 10000
    }
}

/// Royalty terms of a collection, as reported by the collection-metadata
/// provider: a share of every payment, in basis points, owed to a fixed
/// recipient.
#[derive(Debug, PartialEq)]
pub struct RoyaltyInfo {
    pub payment_address: String,
    pub share_bps: u64,
}

impl RoyaltyInfo {
    pub open spec fn wf(self) -> bool {
        self.share_bps <= 10000
    }
}

impl Clone for RoyaltyInfo {
    fn clone(&self) -> (r: RoyaltyInfo)
        ensures
            r == *self,
    {
        RoyaltyInfo { payment_address: self.payment_address.clone(), share_bps: self.share_bps }
    }
}

/// A standing offer to sell one token.
#[derive(Debug, PartialEq)]
pub struct Ask {
    pub sale_type: SaleType,
    pub collection: String,
    pub token_id: TokenId,
    pub seller: String,
    pub price: u128,
    pub funds_recipient: Option<String>,
    pub reserve_for: Option<String>,
    pub finders_fee_bps: Option<u64>,
    pub expires_at: u64,
    pub is_active: bool,
}

impl Ask {
    pub open spec fn wf(self) -> bool {
        &&& self.price > 0
        &&& (self.reserve_for matches Some(r) ==> self.sale_type == SaleType::FixedPrice
            && r@ != self.seller@)
        &&& (self.finders_fee_bps matches Some(b) ==> b <= 10000)
    }

    /// Whether the ask is stale at time `now`.
    pub open spec fn spec_is_expired(self, now: u64) -> bool {
        now >= self.expires_at
    }

    pub fn is_expired(&self, now: u64) -> (r: bool)
        ensures
            r == self.spec_is_expired(now),
    {
        now >= self.expires_at
    }

    /// Runtime check of the record invariant, for callers outside the
    /// verified world.
    pub fn wf_check(&self) -> (ok: bool)
        ensures
            ok == self.wf(),
    {
        if self.price == 0 {
            return false;
        }
        match &self.reserve_for {
            Some(r) => {
                if !(self.sale_type == SaleType::FixedPrice) {
                    return false;
                }
                if *r == self.seller {
                    return false;
                }
            },
            None => {},
        }
        match self.finders_fee_bps {
            Some(x) => {
                if x > 10000 {
                    return false;
                }
            },
            None => {},
        }
        true
    }
}

impl Clone for Ask {
    fn clone(&self) -> (a: Ask)
        ensures
            a == *self,
    {
        Ask {
            sale_type: self.sale_type,
            collection: self.collection.clone(),
            token_id: self.token_id,
            seller: self.seller.clone(),
            price: self.price,
            funds_recipient: match &self.funds_recipient {
                Some(x) => Some(x.clone()),
                None => None,
            },
            reserve_for: match &self.reserve_for {
                Some(x) => Some(x.clone()),
                None => None,
            },
            finders_fee_bps: self.finders_fee_bps,
            expires_at: self.expires_at,
            is_active: self.is_active,
        }
    }
}

/// A standing offer from one bidder to buy one token, with its funds
/// escrowed by the caller at request time.
#[derive(Debug, PartialEq)]
pub struct Bid {
    pub collection: String,
    pub token_id: TokenId,
    pub bidder: String,
    pub price: u128,
    pub finder: Option<String>,
    pub finders_fee_bps: Option<u64>,
    pub expires_at: u64,
}

impl Bid {
    pub open spec fn wf(self) -> bool {
        &&& self.price > 0
        &&& (self.finder matches Some(f) ==> f@ != self.bidder@)
        &&& (self.finders_fee_bps matches Some(b) ==> b <= 10000)
    }

    pub open spec fn spec_is_expired(self, now: u64) -> bool {
        now >= self.expires_at
    }

    pub fn is_expired(&self, now: u64) -> (r: bool)
        ensures
            r == self.spec_is_expired(now),
    {
        now >= self.expires_at
    }

    /// Runtime check of the record invariant, for callers outside the
    /// verified world.
    pub fn wf_check(&self) -> (ok: bool)
        ensures
            ok == self.wf(),
    {
        if self.price == 0 {
            return false;
        }
        match &self.finder {
            Some(f) => {
                if *f == self.bidder {
                    return false;
                }
            },
            None => {},
        }
        match self.finders_fee_bps {
            Some(x) => {
                if x > 10000 {
                    return false;
                }
            },
            None => {},
        }
        true
    }

    pub fn new(
        collection: String,
        token_id: TokenId,
        bidder: String,
        price: u128,
        finder: Option<String>,
        finders_fee_bps: Option<u64>,
        expires_at: u64,
    ) -> (b: Bid)
        ensures
            b == (Bid { collection, token_id, bidder, price, finder, finders_fee_bps, expires_at }),
    {
        Bid { collection, token_id, bidder, price, finder, finders_fee_bps, expires_at }
    }
}

impl Clone for Bid {
    fn clone(&self) -> (b: Bid)
        ensures
            b == *self,
    {
        Bid {
            collection: self.collection.clone(),
            token_id: self.token_id,
            bidder: self.bidder.clone(),
            price: self.price,
            finder: match &self.finder {
                Some(x) => Some(x.clone()),
                None => None,
            },
            finders_fee_bps: self.finders_fee_bps,
            expires_at: self.expires_at,
        }
    }
}

/// Primary key for asks: (collection, token id).
pub type AskKey = (String, TokenId);

/// Primary key for bids: (collection, token id, bidder).
pub type BidKey = (String, TokenId, String);

/// Convenience ask key constructor.
pub fn ask_key(collection: &String, token_id: TokenId) -> (k: AskKey)
    ensures
        k.0@ == collection@,
        k.1 == token_id,
{
    (collection.clone(), token_id)
}

/// Convenience bid key constructor.
pub fn bid_key(collection: &String, token_id: TokenId, bidder: &String) -> (k: BidKey)
    ensures
        k.0@ == collection@,
        k.1 == token_id,
        k.2@ == bidder@,
{
    (collection.clone(), token_id, bidder.clone())
}

/// Whether `a` is keyed by (`collection`, `token_id`).
pub open spec fn ask_key_is(a: Ask, collection: Seq<char>, token_id: TokenId) -> bool {
    a.collection@ == collection && a.token_id == token_id
}

/// Whether `b` is keyed by (`collection`, `token_id`, `bidder`).
pub open spec fn bid_key_is(b: Bid, collection: Seq<char>, token_id: TokenId, bidder: Seq<char>) -> bool {
    b.collection@ == collection && b.token_id == token_id && b.bidder@ == bidder
}

/// The first ask in `s` keyed by (`collection`, `token_id`), if any.  Under
/// `OrderStore::wf` keys are unique, so this is the only such ask.
pub open spec fn ask_at(s: Seq<Ask>, collection: Seq<char>, token_id: TokenId) -> Option<Ask>
    decreases s.len(),
{
    if s.len() == 0 {
        None
    } else if ask_key_is(s[0], collection, token_id) {
        Some(s[0])
    } else {
        ask_at(s.drop_first(), collection, token_id)
    }
}

/// The first bid in `s` keyed by (`collection`, `token_id`, `bidder`), if any.
pub open spec fn bid_at(s: Seq<Bid>, collection: Seq<char>, token_id: TokenId, bidder: Seq<char>) -> Option<Bid>
    decreases s.len(),
{
    if s.len() == 0 {
        None
    } else if bid_key_is(s[0], collection, token_id, bidder) {
        Some(s[0])
    } else {
        bid_at(s.drop_first(), collection, token_id, bidder)
    }
}

/// The subsequence of `s` whose asks belong to `collection`, in order.
pub open spec fn asks_with_collection(s: Seq<Ask>, collection: Seq<char>) -> Seq<Ask>
    decreases s.len(),
{
    if s.len() == 0 {
        Seq::<Ask>::empty()
    } else {
        let rest = asks_with_collection(s.drop_last(), collection);
        if s.last().collection@ == collection {
            rest.push(s.last())
        } else {
            rest
        }
    }
}

/// The subsequence of `s` whose asks were listed by `seller`, in order.
pub open spec fn asks_with_seller(s: Seq<Ask>, seller: Seq<char>) -> Seq<Ask>
    decreases s.len(),
{
    if s.len() == 0 {
        Seq::<Ask>::empty()
    } else {
        let rest = asks_with_seller(s.drop_last(), seller);
        if s.last().seller@ == seller {
            rest.push(s.last())
        } else {
            rest
        }
    }
}

/// All asks in `s` are keyed uniquely.
pub open spec fn asks_unique(s: Seq<Ask>) -> bool {
    forall|i: int, j: int|
        0 <= i < j < s.len() ==> !(#[trigger] ask_key_is(s[j], s[i].collection@, s[i].token_id))
}

/// All bids in `s` are keyed uniquely.
pub open spec fn bids_unique(s: Seq<Bid>) -> bool {
    forall|i: int, j: int|
        0 <= i < j < s.len() ==> !(#[trigger] bid_key_is(
            s[j],
            s[i].collection@,
            s[i].token_id,
            s[i].bidder@,
        ))
}

pub open spec fn all_asks_wf(s: Seq<Ask>) -> bool {
    forall|i: int| 0 <= i < s.len() ==> (#[trigger] s[i]).wf()
}

pub open spec fn all_bids_wf(s: Seq<Bid>) -> bool {
    forall|i: int| 0 <= i < s.len() ==> (#[trigger] s[i]).wf()
}

proof fn lemma_ask_at_covers(s: Seq<Ask>, c: Seq<char>, t: TokenId)
    ensures
        (ask_at(s, c, t) is None) <==> (forall|i: int|
            0 <= i < s.len() ==> !(#[trigger] ask_key_is(s[i], c, t))),
        ask_at(s, c, t) matches Some(a) ==> ask_key_is(a, c, t) && exists|i: int|
            0 <= i < s.len() && s[i] == a,
    decreases s.len(),
{
    if s.len() > 0 {
        let rest = s.drop_first();
        lemma_ask_at_covers(rest, c, t);
        assert(forall|i: int| 0 <= i < rest.len() ==> rest[i] == s[i + 1]);
        if ask_at(s, c, t) is None {
            assert forall|i: int| 0 <= i < s.len() implies !(#[trigger] ask_key_is(s[i], c, t)) by {
                if i > 0 {
                    assert(s[i] == rest[i - 1]);
                }
            }
        }
        if forall|i: int| 0 <= i < s.len() ==> !(#[trigger] ask_key_is(s[i], c, t)) {
            assert(forall|i: int| 0 <= i < rest.len() ==> !(#[trigger] ask_key_is(rest[i], c, t)));
        }
        match ask_at(s, c, t) {
            Some(a) => {
                if !ask_key_is(s[0], c, t) {
                    let i = choose|i: int| 0 <= i < rest.len() && rest[i] == a;
                    assert(s[i + 1] == a);
                }
            },
            None => {},
        }
    }
}

proof fn lemma_ask_at_first(s: Seq<Ask>, c: Seq<char>, t: TokenId, i: int)
    requires
        0 <= i < s.len(),
        ask_key_is(s[i], c, t),
        forall|j: int| 0 <= j < i ==> !(#[trigger] ask_key_is(s[j], c, t)),
    ensures
        ask_at(s, c, t) == Some(s[i]),
    decreases i,
{
    if i > 0 {
        let rest = s.drop_first();
        assert(forall|k: int| 0 <= k < rest.len() ==> rest[k] == s[k + 1]);
        assert forall|j: int| 0 <= j < i - 1 implies !(#[trigger] ask_key_is(rest[j], c, t)) by {
            assert(rest[j] == s[j + 1]);
        }
        lemma_ask_at_first(rest, c, t, i - 1);
    }
}

proof fn lemma_ask_at_push(s: Seq<Ask>, a: Ask, c: Seq<char>, t: TokenId)
    ensures
        ask_at(s.push(a), c, t) == (match ask_at(s, c, t) {
            Some(x) => Some(x),
            None => if ask_key_is(a, c, t) {
                Some(a)
            } else {
                None
            },
        }),
    decreases s.len(),
{
    if s.len() == 0 {
        assert(s.push(a)[0] == a);
        assert(s.push(a).drop_first() =~= Seq::<Ask>::empty());
    } else {
        assert(s.push(a)[0] == s[0]);
        assert(s.push(a).drop_first() =~= s.drop_first().push(a));
        lemma_ask_at_push(s.drop_first(), a, c, t);
    }
}

proof fn lemma_ask_at_remove_other(s: Seq<Ask>, i: int, c: Seq<char>, t: TokenId)
    requires
        0 <= i < s.len(),
        !ask_key_is(s[i], c, t),
    ensures
        ask_at(s.remove(i), c, t) == ask_at(s, c, t),
    decreases i,
{
    s.remove_ensures(i);
    if i == 0 {
        assert(s.remove(0) =~= s.drop_first());
    } else {
        assert(s.remove(i).drop_first() =~= s.drop_first().remove(i - 1));
        if !ask_key_is(s[0], c, t) {
            lemma_ask_at_remove_other(s.drop_first(), i - 1, c, t);
        }
    }
}

proof fn lemma_asks_unique_remove(s: Seq<Ask>, i: int)
    requires
        asks_unique(s),
        0 <= i < s.len(),
    ensures
        asks_unique(s.remove(i)),
{
    s.remove_ensures(i);
    let r = s.remove(i);
    assert forall|j: int, k: int| 0 <= j < k < r.len() implies !(#[trigger] ask_key_is(
        r[k],
        r[j].collection@,
        r[j].token_id,
    )) by {
        let j0 = if j < i { j } else { j + 1 };
        let k0 = if k < i { k } else { k + 1 };
        assert(r[j] == s[j0]);
        assert(r[k] == s[k0]);
        assert(!ask_key_is(s[k0], s[j0].collection@, s[j0].token_id));
    }
}

proof fn lemma_bid_at_covers(s: Seq<Bid>, c: Seq<char>, t: TokenId, b: Seq<char>)
    ensures
        (bid_at(s, c, t, b) is None) <==> (forall|i: int|
            0 <= i < s.len() ==> !(#[trigger] bid_key_is(s[i], c, t, b))),
        bid_at(s, c, t, b) matches Some(x) ==> bid_key_is(x, c, t, b) && exists|i: int|
            0 <= i < s.len() && s[i] == x,
    decreases s.len(),
{
    if s.len() > 0 {
        let rest = s.drop_first();
        lemma_bid_at_covers(rest, c, t, b);
        assert(forall|i: int| 0 <= i < rest.len() ==> rest[i] == s[i + 1]);
        if bid_at(s, c, t, b) is None {
            assert forall|i: int| 0 <= i < s.len() implies !(#[trigger] bid_key_is(s[i], c, t, b)) by {
                if i > 0 {
                    assert(s[i] == rest[i - 1]);
                }
            }
        }
        if forall|i: int| 0 <= i < s.len() ==> !(#[trigger] bid_key_is(s[i], c, t, b)) {
            assert(forall|i: int| 0 <= i < rest.len() ==> !(#[trigger] bid_key_is(rest[i], c, t, b)));
        }
        match bid_at(s, c, t, b) {
            Some(x) => {
                if !bid_key_is(s[0], c, t, b) {
                    let i = choose|i: int| 0 <= i < rest.len() && rest[i] == x;
                    assert(s[i + 1] == x);
                }
            },
            None => {},
        }
    }
}

proof fn lemma_bid_at_first(s: Seq<Bid>, c: Seq<char>, t: TokenId, b: Seq<char>, i: int)
    requires
        0 <= i < s.len(),
        bid_key_is(s[i], c, t, b),
        forall|j: int| 0 <= j < i ==> !(#[trigger] bid_key_is(s[j], c, t, b)),
    ensures
        bid_at(s, c, t, b) == Some(s[i]),
    decreases i,
{
    if i > 0 {
        let rest = s.drop_first();
        assert(forall|k: int| 0 <= k < rest.len() ==> rest[k] == s[k + 1]);
        assert forall|j: int| 0 <= j < i - 1 implies !(#[trigger] bid_key_is(rest[j], c, t, b)) by {
            assert(rest[j] == s[j + 1]);
        }
        lemma_bid_at_first(rest, c, t, b, i - 1);
    }
}

proof fn lemma_bid_at_push(s: Seq<Bid>, x: Bid, c: Seq<char>, t: TokenId, b: Seq<char>)
    ensures
        bid_at(s.push(x), c, t, b) == (match bid_at(s, c, t, b) {
            Some(y) => Some(y),
            None => if bid_key_is(x, c, t, b) {
                Some(x)
            } else {
                None
            },
        }),
    decreases s.len(),
{
    if s.len() == 0 {
        assert(s.push(x)[0] == x);
        assert(s.push(x).drop_first() =~= Seq::<Bid>::empty());
    } else {
        assert(s.push(x)[0] == s[0]);
        assert(s.push(x).drop_first() =~= s.drop_first().push(x));
        lemma_bid_at_push(s.drop_first(), x, c, t, b);
    }
}

proof fn lemma_bid_at_remove_other(s: Seq<Bid>, i: int, c: Seq<char>, t: TokenId, b: Seq<char>)
    requires
        0 <= i < s.len(),
        !bid_key_is(s[i], c, t, b),
    ensures
        bid_at(s.remove(i), c, t, b) == bid_at(s, c, t, b),
    decreases i,
{
    s.remove_ensures(i);
    if i == 0 {
        assert(s.remove(0) =~= s.drop_first());
    } else {
        assert(s.remove(i).drop_first() =~= s.drop_first().remove(i - 1));
        if !bid_key_is(s[0], c, t, b) {
            lemma_bid_at_remove_other(s.drop_first(), i - 1, c, t, b);
        }
    }
}

proof fn lemma_bids_unique_remove(s: Seq<Bid>, i: int)
    requires
        bids_unique(s),
        0 <= i < s.len(),
    ensures
        bids_unique(s.remove(i)),
{
    s.remove_ensures(i);
    let r = s.remove(i);
    assert forall|j: int, k: int| 0 <= j < k < r.len() implies !(#[trigger] bid_key_is(
        r[k],
        r[j].collection@,
        r[j].token_id,
        r[j].bidder@,
    )) by {
        let j0 = if j < i { j } else { j + 1 };
        let k0 = if k < i { k } else { k + 1 };
        assert(r[j] == s[j0]);
        assert(r[k] == s[k0]);
        assert(!bid_key_is(s[k0], s[j0].collection@, s[j0].token_id, s[j0].bidder@));
    }
}

/// The indexed table of standing orders.  It exclusively owns the Ask and
/// Bid records; asks are unique per (collection, token), bids per
/// (collection, token, bidder).
pub struct OrderStore {
    pub asks: Vec<Ask>,
    pub bids: Vec<Bid>,
}

impl OrderStore {
    pub open spec fn wf(self) -> bool {
        &&& asks_unique(self.asks@)
        &&& bids_unique(self.bids@)
        &&& all_asks_wf(self.asks@)
        &&& all_bids_wf(self.bids@)
    }

    pub fn new() -> (s: OrderStore)
        ensures
            s.wf(),
            s.asks@ == Seq::<Ask>::empty(),
            s.bids@ == Seq::<Bid>::empty(),
    {
        OrderStore { asks: Vec::new(), bids: Vec::new() }
    }

    /// Point lookup of the ask for (`collection`, `token_id`).
    pub fn get_ask(&self, collection: &String, token_id: TokenId) -> (r: Option<&Ask>)
        ensures
            match r {
                Some(a) => ask_at(self.asks@, collection@, token_id) == Some(*a),
                None => ask_at(self.asks@, collection@, token_id) is None,
            },
            self.wf() ==> (r matches Some(a) ==> a.wf()),
    {
        let n = self.asks.len();
        let mut i: usize = 0;
        while i < n
            invariant
                i <= n,
                n == self.asks@.len(),
                forall|j: int| 0 <= j < i ==> !(#[trigger] ask_key_is(self.asks@[j], collection@, token_id)),
            decreases n - i,
        {
            let a = &self.asks[i];
            if a.collection == *collection && a.token_id == token_id {
                proof {
                    lemma_ask_at_first(self.asks@, collection@, token_id, i as int);
                }
                return Some(a);
            }
            i += 1;
        }
        proof {
            lemma_ask_at_covers(self.asks@, collection@, token_id);
        }
        None
    }

    /// Point lookup of the bid of `bidder` for (`collection`, `token_id`).
    pub fn get_bid(&self, collection: &String, token_id: TokenId, bidder: &String) -> (r: Option<
        &Bid,
    >)
        ensures
            match r {
                Some(b) => bid_at(self.bids@, collection@, token_id, bidder@) == Some(*b),
                None => bid_at(self.bids@, collection@, token_id, bidder@) is None,
            },
            self.wf() ==> (r matches Some(b) ==> b.wf()),
    {
        let n = self.bids.len();
        let mut i: usize = 0;
        while i < n
            invariant
                i <= n,
                n == self.bids@.len(),
                forall|j: int|
                    0 <= j < i ==> !(#[trigger] bid_key_is(
                        self.bids@[j],
                        collection@,
                        token_id,
                        bidder@,
                    )),
            decreases n - i,
        {
            let b = &self.bids[i];
            if b.collection == *collection && b.token_id == token_id && b.bidder == *bidder {
                proof {
                    lemma_bid_at_first(self.bids@, collection@, token_id, bidder@, i as int);
                }
                return Some(b);
            }
            i += 1;
        }
        proof {
            lemma_bid_at_covers(self.bids@, collection@, token_id, bidder@);
        }
        None
    }

    /// Remove and return the ask for (`collection`, `token_id`), if present.
    /// Every other ask and all bids are untouched.
    pub fn remove_ask(&mut self, collection: &String, token_id: TokenId) -> (r: Option<Ask>)
        requires
            old(self).wf(),
        ensures
            final(self).wf(),
            r == ask_at(old(self).asks@, collection@, token_id),
            ask_at(final(self).asks@, collection@, token_id) is None,
            forall|c: Seq<char>, t: TokenId|
                !(c == collection@ && t == token_id) ==> #[trigger] ask_at(final(self).asks@, c, t)
                    == ask_at(old(self).asks@, c, t),
            final(self).bids@ == old(self).bids@,
            r is None ==> final(self).asks@ == old(self).asks@,
            r matches Some(a) ==> ask_key_is(a, collection@, token_id) && a.wf()
                && final(self).asks@.len() + 1 == old(self).asks@.len(),
    {
        let ghost s0 = self.asks@;
        let n = self.asks.len();
        let mut i: usize = 0;
        while i < n
            invariant
                i <= n,
                n == s0.len(),
                s0 == old(self).asks@,
                self.asks@ == s0,
                self.bids@ == old(self).bids@,
                old(self).wf(),
                forall|j: int| 0 <= j < i ==> !(#[trigger] ask_key_is(s0[j], collection@, token_id)),
            decreases n - i,
        {
            if self.asks[i].collection == *collection && self.asks[i].token_id == token_id {
                proof {
                    lemma_ask_at_first(s0, collection@, token_id, i as int);
                    s0.remove_ensures(i as int);
                    lemma_asks_unique_remove(s0, i as int);
                }
                let a = self.asks.remove(i);
                proof {
                    let s1 = self.asks@;
                    assert forall|j: int| 0 <= j < s1.len() implies !(#[trigger] ask_key_is(
                        s1[j],
                        collection@,
                        token_id,
                    )) by {
                        let j0 = if j < i { j } else { j + 1 };
                        assert(s1[j] == s0[j0]);
                        if j0 != i {
                            if j0 < i {
                                assert(!ask_key_is(s0[j0], collection@, token_id));
                            } else {
                                assert(!ask_key_is(s0[j0], s0[i as int].collection@, s0[i as int].token_id));
                            }
                        }
                    }
                    lemma_ask_at_covers(s1, collection@, token_id);
                    assert forall|c: Seq<char>, t: TokenId|
                        !(c == collection@ && t == token_id) implies #[trigger] ask_at(s1, c, t)
                        == ask_at(s0, c, t) by {
                        assert(!ask_key_is(s0[i as int], c, t));
                        lemma_ask_at_remove_other(s0, i as int, c, t);
                    }
                    assert forall|j: int| 0 <= j < s1.len() implies (#[trigger] s1[j]).wf() by {
                        let j0 = if j < i { j } else { j + 1 };
                        assert(s1[j] == s0[j0]);
                    }
                }
                return Some(a);
            }
            i += 1;
        }
        proof {
            lemma_ask_at_covers(s0, collection@, token_id);
        }
        None
    }

    /// Remove and return the bid of `bidder` for (`collection`, `token_id`),
    /// if present.  Every other bid and all asks are untouched.
    pub fn remove_bid(&mut self, collection: &String, token_id: TokenId, bidder: &String) -> (r:
        Option<Bid>)
        requires
            old(self).wf(),
        ensures
            final(self).wf(),
            r == bid_at(old(self).bids@, collection@, token_id, bidder@),
            bid_at(final(self).bids@, collection@, token_id, bidder@) is None,
            forall|c: Seq<char>, t: TokenId, b: Seq<char>|
                !(c == collection@ && t == token_id && b == bidder@) ==> #[trigger] bid_at(
                    final(self).bids@,
                    c,
                    t,
                    b,
                ) == bid_at(old(self).bids@, c, t, b),
            final(self).asks@ == old(self).asks@,
            r is None ==> final(self).bids@ == old(self).bids@,
            r matches Some(x) ==> bid_key_is(x, collection@, token_id, bidder@) && x.wf()
                && final(self).bids@.len() + 1 == old(self).bids@.len(),
    {
        let ghost s0 = self.bids@;
        let n = self.bids.len();
        let mut i: usize = 0;
        while i < n
            invariant
                i <= n,
                n == s0.len(),
                s0 == old(self).bids@,
                self.bids@ == s0,
                self.asks@ == old(self).asks@,
                old(self).wf(),
                forall|j: int|
                    0 <= j < i ==> !(#[trigger] bid_key_is(s0[j], collection@, token_id, bidder@)),
            decreases n - i,
        {
            if self.bids[i].collection == *collection && self.bids[i].token_id == token_id
                && self.bids[i].bidder == *bidder {
                proof {
                    lemma_bid_at_first(s0, collection@, token_id, bidder@, i as int);
                    s0.remove_ensures(i as int);
                    lemma_bids_unique_remove(s0, i as int);
                }
                let x = self.bids.remove(i);
                proof {
                    let s1 = self.bids@;
                    assert forall|j: int| 0 <= j < s1.len() implies !(#[trigger] bid_key_is(
                        s1[j],
                        collection@,
                        token_id,
                        bidder@,
                    )) by {
                        let j0 = if j < i { j } else { j + 1 };
                        assert(s1[j] == s0[j0]);
                        if j0 != i {
                            if j0 < i {
                                assert(!bid_key_is(s0[j0], collection@, token_id, bidder@));
                            } else {
                                assert(!bid_key_is(
                                    s0[j0],
                                    s0[i as int].collection@,
                                    s0[i as int].token_id,
                                    s0[i as int].bidder@,
                                ));
                            }
                        }
                    }
                    lemma_bid_at_covers(s1, collection@, token_id, bidder@);
                    assert forall|c: Seq<char>, t: TokenId, b: Seq<char>|
                        !(c == collection@ && t == token_id && b == bidder@) implies #[trigger] bid_at(
                        s1,
                        c,
                        t,
                        b,
                    ) == bid_at(s0, c, t, b) by {
                        assert(!bid_key_is(s0[i as int], c, t, b));
                        lemma_bid_at_remove_other(s0, i as int, c, t, b);
                    }
                    assert forall|j: int| 0 <= j < s1.len() implies (#[trigger] s1[j]).wf() by {
                        let j0 = if j < i { j } else { j + 1 };
                        assert(s1[j] == s0[j0]);
                    }
                }
                return Some(x);
            }
            i += 1;
        }
        proof {
            lemma_bid_at_covers(s0, collection@, token_id, bidder@);
        }
        None
    }

    /// Save `ask` under its key, overwriting any ask already there
    /// (last-writer-wins).  Every other ask and all bids are untouched.
    pub fn put_ask(&mut self, ask: Ask)
        requires
            old(self).wf(),
            ask.wf(),
        ensures
            final(self).wf(),
            ask_at(final(self).asks@, ask.collection@, ask.token_id) == Some(ask),
            forall|c: Seq<char>, t: TokenId|
                !ask_key_is(ask, c, t) ==> #[trigger] ask_at(final(self).asks@, c, t) == ask_at(
                    old(self).asks@,
                    c,
                    t,
                ),
            final(self).bids@ == old(self).bids@,
    {
        self.remove_ask(&ask.collection, ask.token_id);
        let ghost s1 = self.asks@;
        proof {
            lemma_ask_at_covers(s1, ask.collection@, ask.token_id);
        }
        self.asks.push(ask);
        proof {
            let s2 = self.asks@;
            lemma_ask_at_push(s1, ask, ask.collection@, ask.token_id);
            assert forall|c: Seq<char>, t: TokenId| !ask_key_is(ask, c, t) implies #[trigger] ask_at(
                s2,
                c,
                t,
            ) == ask_at(old(self).asks@, c, t) by {
                lemma_ask_at_push(s1, ask, c, t);
            }
            assert forall|i: int, j: int| 0 <= i < j < s2.len() implies !(#[trigger] ask_key_is(
                s2[j],
                s2[i].collection@,
                s2[i].token_id,
            )) by {
                if j == s2.len() - 1 {
                    assert(s2[i] == s1[i]);
                    assert(!ask_key_is(s1[i], ask.collection@, ask.token_id));
                } else {
                    assert(s2[i] == s1[i]);
                    assert(s2[j] == s1[j]);
                }
            }
            assert forall|i: int| 0 <= i < s2.len() implies (#[trigger] s2[i]).wf() by {
                if i < s2.len() - 1 {
                    assert(s2[i] == s1[i]);
                }
            }
        }
    }

    /// Save `bid` under its key, overwriting any bid already there.
    /// Every other bid and all asks are untouched.
    pub fn put_bid(&mut self, bid: Bid)
        requires
            old(self).wf(),
            bid.wf(),
        ensures
            final(self).wf(),
            bid_at(final(self).bids@, bid.collection@, bid.token_id, bid.bidder@) == Some(bid),
            forall|c: Seq<char>, t: TokenId, b: Seq<char>|
                !bid_key_is(bid, c, t, b) ==> #[trigger] bid_at(final(self).bids@, c, t, b) == bid_at(
                    old(self).bids@,
                    c,
                    t,
                    b,
                ),
            final(self).asks@ == old(self).asks@,
    {
        self.remove_bid(&bid.collection, bid.token_id, &bid.bidder);
        let ghost s1 = self.bids@;
        proof {
            lemma_bid_at_covers(s1, bid.collection@, bid.token_id, bid.bidder@);
        }
        self.bids.push(bid);
        proof {
            let s2 = self.bids@;
            lemma_bid_at_push(s1, bid, bid.collection@, bid.token_id, bid.bidder@);
            assert forall|c: Seq<char>, t: TokenId, b: Seq<char>|
                !bid_key_is(bid, c, t, b) implies #[trigger] bid_at(s2, c, t, b) == bid_at(
                old(self).bids@,
                c,
                t,
                b,
            ) by {
                lemma_bid_at_push(s1, bid, c, t, b);
            }
            assert forall|i: int, j: int| 0 <= i < j < s2.len() implies !(#[trigger] bid_key_is(
                s2[j],
                s2[i].collection@,
                s2[i].token_id,
                s2[i].bidder@,
            )) by {
                if j == s2.len() - 1 {
                    assert(s2[i] == s1[i]);
                    assert(!bid_key_is(s1[i], bid.collection@, bid.token_id, bid.bidder@));
                } else {
                    assert(s2[i] == s1[i]);
                    assert(s2[j] == s1[j]);
                }
            }
            assert forall|i: int| 0 <= i < s2.len() implies (#[trigger] s2[i]).wf() by {
                if i < s2.len() - 1 {
                    assert(s2[i] == s1[i]);
                }
            }
        }
    }

    /// Runtime check of the store invariant — unique keys and valid
    /// records — for a store that arrives from outside the verified
    /// world (say, read back from persistent storage).
    pub fn wf_check(&self) -> (ok: bool)
        ensures
            ok == self.wf(),
    {
        let na = self.asks.len();
        let mut i: usize = 0;
        while i < na
            invariant
                i <= na,
                na == self.asks@.len(),
                forall|k: int| 0 <= k < i ==> (#[trigger] self.asks@[k]).wf(),
                forall|k: int, l: int|
                    0 <= k < l < i ==> !(#[trigger] ask_key_is(
                        self.asks@[l],
                        self.asks@[k].collection@,
                        self.asks@[k].token_id,
                    )),
            decreases na - i,
        {
            if !self.asks[i].wf_check() {
                return false;
            }
            let mut j: usize = 0;
            while j < i
                invariant
                    j <= i,
                    i < na,
                    na == self.asks@.len(),
                    forall|k: int|
                        0 <= k < j ==> !(#[trigger] ask_key_is(
                            self.asks@[i as int],
                            self.asks@[k].collection@,
                            self.asks@[k].token_id,
                        )),
                decreases i - j,
            {
                if self.asks[i].collection == self.asks[j].collection && self.asks[i].token_id
                    == self.asks[j].token_id {
                    proof {
                        assert(ask_key_is(
                            self.asks@[i as int],
                            self.asks@[j as int].collection@,
                            self.asks@[j as int].token_id,
                        ));
                    }
                    return false;
                }
                j += 1;
            }
            i += 1;
        }
        let nb = self.bids.len();
        let mut i: usize = 0;
        while i < nb
            invariant
                i <= nb,
                nb == self.bids@.len(),
                asks_unique(self.asks@),
                all_asks_wf(self.asks@),
                forall|k: int| 0 <= k < i ==> (#[trigger] self.bids@[k]).wf(),
                forall|k: int, l: int|
                    0 <= k < l < i ==> !(#[trigger] bid_key_is(
                        self.bids@[l],
                        self.bids@[k].collection@,
                        self.bids@[k].token_id,
                        self.bids@[k].bidder@,
                    )),
            decreases nb - i,
        {
            if !self.bids[i].wf_check() {
                return false;
            }
            let mut j: usize = 0;
            while j < i
                invariant
                    j <= i,
                    i < nb,
                    nb == self.bids@.len(),
                    forall|k: int|
                        0 <= k < j ==> !(#[trigger] bid_key_is(
                            self.bids@[i as int],
                            self.bids@[k].collection@,
                            self.bids@[k].token_id,
                            self.bids@[k].bidder@,
                        )),
                decreases i - j,
            {
                if self.bids[i].collection == self.bids[j].collection && self.bids[i].token_id
                    == self.bids[j].token_id && self.bids[i].bidder == self.bids[j].bidder {
                    proof {
                        assert(bid_key_is(
                            self.bids@[i as int],
                            self.bids@[j as int].collection@,
                            self.bids@[j as int].token_id,
                            self.bids@[j as int].bidder@,
                        ));
                    }
                    return false;
                }
                j += 1;
            }
            i += 1;
        }
        true
    }

    /// Scan of the collection index: every ask of `collection`, in the
    /// store's order.
    pub fn asks_by_collection(&self, collection: &String) -> (result: Vec<Ask>)
        ensures
            result@ == asks_with_collection(self.asks@, collection@),
    {
        let mut result: Vec<Ask> = Vec::new();
        let n = self.asks.len();
        let mut i: usize = 0;
        while i < n
            invariant
                i <= n,
                n == self.asks@.len(),
                result@ == asks_with_collection(self.asks@.take(i as int), collection@),
            decreases n - i,
        {
            proof {
                assert(self.asks@.take(i + 1 as int).drop_last() =~= self.asks@.take(i as int));
                assert(self.asks@.take(i + 1 as int).last() == self.asks@[i as int]);
            }
            if self.asks[i].collection == *collection {
                result.push(self.asks[i].clone());
            }
            i += 1;
        }
        proof {
            assert(self.asks@.take(n as int) =~= self.asks@);
        }
        result
    }

    /// Scan of the seller index: every ask listed by `seller`, in the
    /// store's order.
    pub fn asks_by_seller(&self, seller: &String) -> (result: Vec<Ask>)
        ensures
            result@ == asks_with_seller(self.asks@, seller@),
    {
        let mut result: Vec<Ask> = Vec::new();
        let n = self.asks.len();
        let mut i: usize = 0;
        while i < n
            invariant
                i <= n,
                n == self.asks@.len(),
                result@ == asks_with_seller(self.asks@.take(i as int), seller@),
            decreases n - i,
        {
            proof {
                assert(self.asks@.take(i + 1 as int).drop_last() =~= self.asks@.take(i as int));
                assert(self.asks@.take(i + 1 as int).last() == self.asks@[i as int]);
            }
            if self.asks[i].seller == *seller {
                result.push(self.asks[i].clone());
            }
            i += 1;
        }
        proof {
            assert(self.asks@.take(n as int) =~= self.asks@);
        }
        result
    }

    /// Scan of the collection-and-price index: the asks of `collection`
    /// by ascending price.
    pub fn asks_by_collection_price(&self, collection: &String) -> (result: Vec<Ask>)
        ensures
            result@.to_multiset() == asks_with_collection(self.asks@, collection@).to_multiset(),
            forall|i: int, j: int|
                0 <= i < j < result@.len() ==> #[trigger] result@[i].price <= #[trigger] result@[j].price,
    {
        broadcast use vstd::seq_lib::group_to_multiset_ensures;

        let ghost whole = asks_with_collection(self.asks@, collection@).to_multiset();
        let mut pool = self.asks_by_collection(collection);
        let mut result: Vec<Ask> = Vec::new();
        while pool.len() > 0
            invariant
                result@.to_multiset().add(pool@.to_multiset()) == whole,
                forall|i: int, j: int|
                    0 <= i < j < result@.len() ==> #[trigger] result@[i].price
                        <= #[trigger] result@[j].price,
                forall|i: int, j: int|
                    0 <= i < result@.len() && 0 <= j < pool@.len() ==> #[trigger] result@[i].price
                        <= #[trigger] pool@[j].price,
            decreases pool.len(),
        {
            let mut min_idx: usize = 0;
            let mut k: usize = 1;
            while k < pool.len()
                invariant
                    pool@.len() > 0,
                    min_idx < pool@.len(),
                    k <= pool@.len(),
                    forall|j: int|
                        0 <= j < k ==> pool@[min_idx as int].price <= #[trigger] pool@[j].price,
                decreases pool@.len() - k,
            {
                if pool[k].price < pool[min_idx].price {
                    min_idx = k;
                }
                k += 1;
            }
            let ghost pool0 = pool@;
            let x = pool.remove(min_idx);
            proof {
                broadcast use vstd::seq_lib::group_to_multiset_ensures;

                pool0.remove_ensures(min_idx as int);
                assert(pool0.contains(pool0[min_idx as int]));
                assert(result@.push(x).to_multiset() =~= result@.to_multiset().insert(x));
                assert(result@.push(x).to_multiset().add(pool@.to_multiset()) =~= whole);
                assert forall|i: int, j: int|
                    0 <= i < result@.push(x).len() && 0 <= j < pool@.len() implies #[trigger] result@.push(
                    x,
                )[i].price <= #[trigger] pool@[j].price by {
                    let j0 = if j < min_idx { j } else { j + 1 };
                    assert(pool@[j] == pool0[j0]);
                    if i < result@.len() {
                        assert(result@[i].price <= pool0[j0].price);
                    } else {
                        assert(result@.push(x)[i] == x);
                        assert(x.price <= pool0[j0].price);
                    }
                }
            }
            result.push(x);
        }
        proof {
            broadcast use vstd::seq_lib::group_to_multiset_ensures;

            assert(pool@.to_multiset() =~= vstd::multiset::Multiset::<Ask>::empty());
            assert(result@.to_multiset() =~= whole);
        }
        result
    }
}

} // verus!
