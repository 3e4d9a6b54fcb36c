//! Monetary arithmetic of the settlement engine.  All four components of a
//! payout — network fee, finder's fee, royalty, seller share — come from the
//! same integer payment by floor division, and their sum never exceeds the
//! payment.

use crate::state::RoyaltyInfo;
use vstd::arithmetic::div_mod::{
    lemma_div_is_ordered, lemma_div_multiples_vanish, lemma_div_pos_is_pos,
    lemma_fundamental_div_mod, lemma_hoist_over_denominator,
};
use vstd::arithmetic::mul::{
    lemma_mul_inequality, lemma_mul_is_commutative, lemma_mul_nonnegative, lemma_mul_upper_bound,
};
use vstd::prelude::*;

verus! {

/// floor(payment * num / den), as mathematical integers.
pub open spec fn spec_fee(payment: u128, num: u64, den: u64) -> int
    recommends
        den > 0,
{
    (payment as int * num as int) / (den as int)
}

/// The network fee removed from every sale:
/// floor(payment * trading_fee_percent / 100).
pub open spec fn spec_network_fee(payment: u128, trading_fee_percent: u64) -> int {
    spec_fee(payment, trading_fee_percent, 100)
}

/// The finder's reward: floor(payment * bps / 10000) when both a finder and
/// a rate were given, else zero.
pub open spec fn spec_finders_fee(payment: u128, finder_present: bool, bps: Option<u64>) -> int {
    match bps {
        Some(b) => if finder_present {
            spec_fee(payment, b, 10000)
        } else {
            0
        },
        None => 0,
    }
}

/// The royalty terms that actually apply: terms with a zero share count as
/// none.
pub open spec fn spec_effective_royalty(royalty: Option<RoyaltyInfo>) -> Option<RoyaltyInfo> {
    match royalty {
        Some(r) => if r.share_bps > 0 {
            Some(r)
        } else {
            None
        },
        None => None,
    }
}

/// The royalty owed on `payment` under the effective terms.
pub open spec fn spec_royalty_amount(payment: u128, royalty: Option<RoyaltyInfo>) -> int {
    match spec_effective_royalty(royalty) {
        Some(r) => spec_fee(payment, r.share_bps, 10000),
        None => 0,
    }
}

/// What is left for the seller (or the ask's funds recipient): with a
/// royalty of share s, floor(payment * (10000 - s) / 10000) minus network
/// and finder's fee; without one, the payment minus network and finder's
/// fee.
pub open spec fn spec_seller_share(
    payment: u128,
    trading_fee_percent: u64,
    finder_present: bool,
    bps: Option<u64>,
    royalty: Option<RoyaltyInfo>,
) -> int {
    let net = spec_network_fee(payment, trading_fee_percent);
    let ff = spec_finders_fee(payment, finder_present, bps);
    match spec_effective_royalty(royalty) {
        Some(r) => spec_fee(payment, (10000 - r.share_bps) as u64, 10000) - net - ff,
        None => payment - net - ff,
    }
}

/// When settlement must abort: the fixed fees cannot be carved out of the
/// payment without leaving the seller share negative.
pub open spec fn spec_fees_exceed(
    payment: u128,
    trading_fee_percent: u64,
    finder_present: bool,
    bps: Option<u64>,
    royalty: Option<RoyaltyInfo>,
) -> bool {
    let net = spec_network_fee(payment, trading_fee_percent);
    let ff = spec_finders_fee(payment, finder_present, bps);
    match spec_effective_royalty(royalty) {
        Some(r) => payment < net + ff + spec_fee(payment, r.share_bps, 10000)
            || spec_seller_share(payment, trading_fee_percent, finder_present, bps, royalty) < 0,
        None => payment < net + ff,
    }
}

/// floor(amount * num / den), computed without overflow by splitting
/// `amount` at the divisor.
pub fn fee_portion(amount: u128, num: u64, den: u64) -> (r: u128)
    requires
        0 < den,
        num <= den,
    ensures
        r == spec_fee(amount, num, den),
        r <= amount,
{
    let q = amount / (den as u128);
    let rem = amount % (den as u128);
    proof {
        // q * num stays below amount, and rem * num below the square of the
        // divisor, so both products fit.
        lemma_fundamental_div_mod(amount as int, den as int);
        assert(den as int * (q as int) + rem as int == amount as int);
        assert(rem < den as u128) by {
            vstd::arithmetic::div_mod::lemma_mod_division_less_than_divisor(
                amount as int,
                den as int,
            );
        }
        lemma_mul_inequality(num as int, den as int, q as int);
        assert(q as int * (num as int) <= amount as int);
        lemma_mul_upper_bound(rem as int, u64::MAX as int, num as int, u64::MAX as int);
    }
    let part1 = q * (num as u128);
    let part2 = (rem * (num as u128)) / (den as u128);
    proof {
        assert(amount as int * (num as int) == q as int * (num as int) * (den as int) + rem as int
            * (num as int)) by (nonlinear_arith)
            requires
                amount as int == den as int * (q as int) + rem as int,
        ;
        lemma_hoist_over_denominator(rem as int * (num as int), q as int * (num as int), den as nat);
        assert(part1 as int == q as int * (num as int));
        assert(part2 as int == (rem as int * (num as int)) / (den as int));
        assert(part1 as int + part2 as int == (amount as int * (num as int)) / (den as int));
        // the portion of the whole never exceeds the whole
        lemma_mul_inequality(num as int, den as int, amount as int);
        lemma_mul_is_commutative(num as int, amount as int);
        lemma_mul_is_commutative(den as int, amount as int);
        lemma_div_is_ordered(amount as int * (num as int), den as int * (amount as int), den as int);
        lemma_div_multiples_vanish(amount as int, den as int);
        assert(part1 as int + part2 as int <= amount as int);
    }
    part1 + part2
}

/// Splitting a payment at a basis-point share loses at most one unit to
/// rounding, and nothing when the share divides the payment evenly.  This
/// is the heart of the settlement conservation property.
pub proof fn lemma_fee_split_bound(payment: u128, share_bps: u64)
    requires
        0 < share_bps <= 10000,
    ensures
        spec_fee(payment, share_bps, 10000) + spec_fee(payment, (10000 - share_bps) as u64, 10000)
            <= payment,
        (payment as int * share_bps as int) % 10000 == 0 ==> spec_fee(payment, share_bps, 10000)
            + spec_fee(payment, (10000 - share_bps) as u64, 10000) == payment,
{
    let p = payment as int;
    let sh = share_bps as int;
    let a = p * sh;
    let b = p * (10000 - sh);
    assert(p * sh + p * (10000 - sh) == 10000 * p) by (nonlinear_arith);
    lemma_fundamental_div_mod(a, 10000);
    lemma_fundamental_div_mod(b, 10000);
    assert(a % 10000 >= 0 && a % 10000 < 10000);
    assert(b % 10000 >= 0 && b % 10000 < 10000);
    let s = a / 10000 + b / 10000;
    // 10000*s differs from 10000*p by the two remainders, each below 10000,
    // so s is p or p - 1, and exactly p when a divides evenly.
    assert(10000 * s == 10000 * p - (a % 10000 + b % 10000));
    assert(s <= p);
    if a % 10000 == 0 {
        assert(b % 10000 == 0);
        assert(s == p);
    }
}

/// A floor-divided portion at a rate of at most one lies between zero and
/// the whole payment.
pub proof fn lemma_fee_bounds(payment: u128, num: u64, den: u64)
    requires
        0 < den,
        num <= den,
    ensures
        0 <= spec_fee(payment, num, den) <= payment,
{
    lemma_mul_nonnegative(payment as int, num as int);
    lemma_div_pos_is_pos(payment as int * (num as int), den as int);
    lemma_mul_inequality(num as int, den as int, payment as int);
    lemma_mul_is_commutative(num as int, payment as int);
    lemma_div_is_ordered(payment as int * (num as int), den as int * (payment as int), den as int);
    lemma_div_multiples_vanish(payment as int, den as int);
}

/// The core settlement invariant: for every successful settlement the
/// network fee, finder's fee, royalty and seller share are each
/// non-negative and together never exceed the payment; they sum to the
/// payment exactly whenever no royalty applies, and, with a royalty,
/// whenever the share divides the payment evenly — floor division loses
/// at most one unit to rounding otherwise.
pub proof fn lemma_settlement_conservation(
    payment: u128,
    trading_fee_percent: u64,
    finder_present: bool,
    bps: Option<u64>,
    royalty: Option<RoyaltyInfo>,
)
    requires
        trading_fee_percent <= 100,
        bps matches Some(b) ==> b <= 10000,
        royalty matches Some(ri) ==> ri.wf(),
        !spec_fees_exceed(payment, trading_fee_percent, finder_present, bps, royalty),
    ensures
        ({
            let net = spec_network_fee(payment, trading_fee_percent);
            let ff = spec_finders_fee(payment, finder_present, bps);
            let roy = spec_royalty_amount(payment, royalty);
            let seller = spec_seller_share(payment, trading_fee_percent, finder_present, bps, royalty);
            &&& 0 <= net
            &&& 0 <= ff
            &&& 0 <= roy
            &&& 0 <= seller
            &&& net + ff + roy + seller <= payment
            &&& (spec_effective_royalty(royalty) is None ==> net + ff + roy + seller == payment)
            &&& (spec_effective_royalty(royalty) matches Some(ri) && (payment as int
                * ri.share_bps as int) % 10000 == 0 ==> net + ff + roy + seller == payment)
        }),
{
    lemma_fee_bounds(payment, trading_fee_percent, 100);
    if finder_present {
        match bps {
            Some(b) => lemma_fee_bounds(payment, b, 10000),
            None => {},
        }
    }
    match spec_effective_royalty(royalty) {
        Some(ri) => {
            lemma_fee_bounds(payment, ri.share_bps, 10000);
            lemma_fee_bounds(payment, (10000 - ri.share_bps) as u64, 10000);
            lemma_fee_split_bound(payment, ri.share_bps);
        },
        None => {},
    }
}

} // verus!
