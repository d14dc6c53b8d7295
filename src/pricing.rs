use vstd::prelude::*;

use crate::error::BidError;

verus! {

/// Price of the first key of a round, in the currency's smallest unit.
pub const INITIAL_KEY_PRICE: u64 = 10_000_000;

/// Seed of the prize pool paid in when a round starts.
pub const INITIAL_PRIZE_POOL: u64 = 25_000_000_000;

/// Growth of the key price per key sold, in basis points of `DIVIDER`.
pub const PRICE_INCREASE_RATE: u64 = 10;

/// Slippage a buyer accepts over the amount they were quoted, in basis points.
pub const PRICE_TOLERANCE: u64 = 1000;

/// Fee skimmed to the treasury from every purchase, in basis points.
pub const BUY_FEE: u64 = 100;

/// Fee skimmed to the treasury from the prize when it is released, in basis points.
pub const DISTRIBUTION_FEE: u64 = 300;

/// Nominal share of the escrowed payment that feeds the prize pool.
pub const LAST_BIDDER_SHARE: u64 = 6000;

/// Share of the escrowed payment that goes to the key holders.
pub const KEY_HOLDERS_SHARE: u64 = 4000;

/// Share of the escrowed payment that goes to a referrer, taken from the prize pool's part.
pub const REFERRAL_SHARE: u64 = 2000;

/// Fixed divisor of every rate above.
pub const DIVIDER: u64 = 10000;

/// What a batch of keys costs and where the payment goes.
#[derive(Clone, Copy, Debug, PartialEq, Eq, Structural)]
pub struct Fees {
    pub total_amount: u64,
    pub treasury_amount: u64,
    pub next_key_price: u64,
    pub prize_pool_amount: u64,
    pub key_holders_amount: u64,
    pub referral_amount: u64,
}

/// One compounding step of the price, rounded down.
pub open spec fn step_price(p: int) -> int {
    p * (DIVIDER + PRICE_INCREASE_RATE) / (DIVIDER as int)
}

/// The price `p` compounded `k` times, each step floored.
pub open spec fn price_after(p: int, k: nat) -> int
    decreases k,
{
    if k == 0 {
        p
    } else {
        step_price(price_after(p, (k - 1) as nat))
    }
}

/// The sum of the unit prices of `n` successive keys, the first one costing `p`.
pub open spec fn batch_total(p: int, n: nat) -> int
    decreases n,
{
    if n == 0 {
        0
    } else {
        batch_total(p, (n - 1) as nat) + price_after(p, (n - 1) as nat)
    }
}

/// A batch of `n` keys at starting price `p` can be quoted in 64-bit amounts.
pub open spec fn quote_fits(p: int, n: nat) -> bool {
    batch_total(p, n) <= u64::MAX && price_after(p, n) <= u64::MAX
}

/// The purchase fee on a payment of `total`.
pub open spec fn treasury_part(total: int) -> int {
    total * BUY_FEE / (DIVIDER as int)
}

/// The key holders' part of a payment of `total`.
pub open spec fn key_holders_part(total: int) -> int {
    (total - treasury_part(total)) * KEY_HOLDERS_SHARE / (DIVIDER as int)
}

/// The referrer's part of a payment of `total`, nothing without a referrer.
pub open spec fn referral_part(total: int, has_referral: bool) -> int {
    if has_referral {
        (total - treasury_part(total)) * REFERRAL_SHARE / (DIVIDER as int)
    } else {
        0
    }
}

/// The prize pool's part: whatever of the escrowed payment the other parts leave,
/// rounding remainders included.
pub open spec fn prize_pool_part(total: int, has_referral: bool) -> int {
    total - treasury_part(total) - key_holders_part(total) - referral_part(total, has_referral)
}

/// `f` is the quote for `n` keys at current price `p`.
pub open spec fn is_quote(f: Fees, p: int, n: nat, has_referral: bool) -> bool {
    let total = batch_total(p, n);
    &&& f.total_amount == total
    &&& f.next_key_price == price_after(p, n)
    &&& f.treasury_amount == treasury_part(total)
    &&& f.key_holders_amount == key_holders_part(total)
    &&& f.referral_amount == referral_part(total, has_referral)
    &&& f.prize_pool_amount == prize_pool_part(total, has_referral)
}

/// One compounding step never lowers a price.
pub proof fn lemma_step_price_grows(p: int)
    requires
        p >= 0,
    ensures
        step_price(p) >= p,
{
    assert(p * (DIVIDER + PRICE_INCREASE_RATE) >= p * (DIVIDER as int)) by (nonlinear_arith)
        requires
            p >= 0,
    ;
    assert((p * (DIVIDER as int)) / (DIVIDER as int) == p) by (nonlinear_arith);
    assert(p * (DIVIDER + PRICE_INCREASE_RATE) / (DIVIDER as int) >= (p * (DIVIDER as int)) / (
    DIVIDER as int)) by (nonlinear_arith)
        requires
            p * (DIVIDER + PRICE_INCREASE_RATE) >= p * (DIVIDER as int),
    ;
}

/// The price never falls as keys are sold: after `j` keys it is at least what it
/// was after `i <= j` keys, and in particular at least the starting price.
pub proof fn lemma_price_non_decreasing(p: int, i: nat, j: nat)
    requires
        p >= 0,
        i <= j,
    ensures
        price_after(p, i) <= price_after(p, j),
        p <= price_after(p, j),
    decreases j,
{
    if j > 0 {
        lemma_price_non_decreasing(p, 0, (j - 1) as nat);
        lemma_step_price_grows(price_after(p, (j - 1) as nat));
        if i < j {
            lemma_price_non_decreasing(p, i, (j - 1) as nat);
        }
    }
}

/// The cost of a batch never falls as the batch grows.
pub proof fn lemma_batch_total_grows(p: int, i: nat, j: nat)
    requires
        p >= 0,
        i <= j,
    ensures
        0 <= batch_total(p, i) <= batch_total(p, j),
    decreases j,
{
    if j > 0 {
        lemma_price_non_decreasing(p, 0, (j - 1) as nat);
        lemma_batch_total_grows(p, 0, (j - 1) as nat);
        if i < j {
            lemma_batch_total_grows(p, i, (j - 1) as nat);
        }
    } else {
        assert(i == 0);
    }
}

/// Fee split of a payment of `total`: the parts are exact and add up to `total`.
fn split_payment(total: u64, has_referral: bool) -> (f: (u64, u64, u64, u64))
    ensures
        f.0 == treasury_part(total as int),
        f.1 == key_holders_part(total as int),
        f.2 == referral_part(total as int, has_referral),
        f.3 == prize_pool_part(total as int, has_referral),
{
    proof {
        lemma_fee_split_exact(total as int, has_referral);
    }
    let treasury: u64 = ((total as u128) * (BUY_FEE as u128) / (DIVIDER as u128)) as u64;
    let rest: u64 = total - treasury;
    let key_holders: u64 = ((rest as u128) * (KEY_HOLDERS_SHARE as u128) / (DIVIDER as u128)) as u64;
    let referral: u64 = if has_referral {
        ((rest as u128) * (REFERRAL_SHARE as u128) / (DIVIDER as u128)) as u64
    } else {
        0
    };
    let prize: u64 = rest - key_holders - referral;
    (treasury, key_holders, referral, prize)
}

/// Quotes a batch of `number_of_keys` keys at `current_price`: the cost of each key
/// is the previous one compounded once, and the payment is split between the
/// treasury, the prize pool, the key holders and, if there is one, the referrer.
pub fn calculate_fees_and_next_price(number_of_keys: u64, current_price: u64, has_referral: bool) -> (r:
    Result<Fees, BidError>)
    ensures
        match r {
            Ok(f) => is_quote(f, current_price as int, number_of_keys as nat, has_referral),
            Err(e) => e == BidError::ArithmeticOverflow,
        },
        r is Ok <==> quote_fits(current_price as int, number_of_keys as nat),
        r matches Ok(f) ==> f.total_amount == f.treasury_amount + f.prize_pool_amount
            + f.key_holders_amount + f.referral_amount,
        r matches Ok(f) ==> f.next_key_price >= current_price,
{
    let ghost p = current_price as int;
    let ghost n = number_of_keys as nat;
    let mut price: u64 = current_price;
    let mut total: u64 = 0;
    let mut i: u64 = 0;
    while i < number_of_keys
        invariant
            i <= number_of_keys,
            p == current_price as int,
            n == number_of_keys as nat,
            price == price_after(p, i as nat),
            total == batch_total(p, i as nat),
        decreases number_of_keys - i,
    {
        if total > u64::MAX - price {
            proof {
                lemma_batch_total_grows(p, (i + 1) as nat, n);
            }
            return Err(BidError::ArithmeticOverflow);
        }
        total = total + price;
        assert((price as u128) * 10010 <= 0xffff_ffff_ffff_ffffu128 * 10010) by (nonlinear_arith);
        let next: u128 = (price as u128) * ((DIVIDER + PRICE_INCREASE_RATE) as u128) / (
        DIVIDER as u128);
        if next > u64::MAX as u128 {
            proof {
                lemma_price_non_decreasing(p, (i + 1) as nat, n);
            }
            return Err(BidError::ArithmeticOverflow);
        }
        price = next as u64;
        i = i + 1;
    }
    proof {
        lemma_price_non_decreasing(p, 0, n);
        lemma_fee_split_exact(total as int, has_referral);
    }
    let (treasury, key_holders, referral, prize) = split_payment(total, has_referral);
    Ok(
        Fees {
            total_amount: total,
            treasury_amount: treasury,
            next_key_price: price,
            prize_pool_amount: prize,
            key_holders_amount: key_holders,
            referral_amount: referral,
        },
    )
}

/// No part of a payment is lost to rounding: the treasury's, the prize pool's, the
/// key holders' and the referrer's parts add up to exactly what the buyer pays,
/// and none of them is negative. Without a referrer the prize pool gets at least
/// its nominal share of the escrowed payment.
pub proof fn lemma_fee_split_exact(total: int, has_referral: bool)
    requires
        total >= 0,
    ensures
        total == treasury_part(total) + prize_pool_part(total, has_referral) + key_holders_part(
            total,
        ) + referral_part(total, has_referral),
        0 <= treasury_part(total) <= total,
        0 <= key_holders_part(total),
        0 <= referral_part(total, has_referral),
        0 <= prize_pool_part(total, has_referral),
        prize_pool_part(total, false) >= (total - treasury_part(total)) * LAST_BIDDER_SHARE / (
        DIVIDER as int),
{
    let t = treasury_part(total);
    assert(0 <= t <= total) by (nonlinear_arith)
        requires
            t == total * 100 / 10000,
            total >= 0,
    ;
    let rest = total - t;
    assert(0 <= rest * 4000 / 10000 + rest * 2000 / 10000 <= rest) by (nonlinear_arith)
        requires
            rest >= 0,
    ;
    assert(rest * 4000 / 10000 + rest * 6000 / 10000 <= rest) by (nonlinear_arith)
        requires
            rest >= 0,
    ;
}

} // verus!
