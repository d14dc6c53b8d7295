use vstd::prelude::*;

use crate::error::BidError;
use crate::holders::{
    adjust_revenue, check_if_buyer_is_in_the_group, credit_fits, credit_keys, find_holder,
    update_key_holders,
};
use crate::pricing::{
    batch_total, calculate_fees_and_next_price, is_quote, key_holders_part,
    lemma_fee_split_exact, lemma_price_non_decreasing, prize_pool_part, quote_fits,
    referral_part, Fees, DIVIDER, PRICE_TOLERANCE,
};
use crate::state::{
    is_member, BuyerGameData, Game, GroupRevenueCounter, Identity, KeyHolder, KeyHolders,
    ReferralAccount,
};

verus! {

/// Length of a fresh round's timer, in seconds.
pub const BASE_TIMER: i64 = 900;

/// Time each key adds to the timer, in seconds.
pub const INC_TIME: i64 = 900;

/// How far past the present the timer may ever reach, in seconds.
pub const MAX_TIMER: i64 = 28800;

/// Cooldown between the end of a round and the start of the next, in seconds.
pub const REST_TIME: i64 = 43200;

/// Burn tokens destroyed per key bought.
pub const BID_TOKENS_PER_TX: u64 = 25_000_000;

/// How many holders one group holds.
pub const MAX_HOLDERS: u64 = 100;

/// What a purchase is told of the world around it.
#[derive(Clone, Copy, Debug, PartialEq, Eq, Structural)]
pub struct PurchaseAccounts {
    pub buyer: Identity,
    /// The treasury account presented with the purchase.
    pub treasury: Identity,
    /// The burn-token mint presented with the purchase.
    pub bid_token_mint: Identity,
    /// The buyer's burn-token balance.
    pub bid_token_balance: u64,
    pub now: i64,
}

/// The transfers a completed purchase asks for.
#[derive(Clone, Copy, Debug, PartialEq, Eq, Structural)]
pub struct Purchase {
    /// Keys actually bought, after the timer cap.
    pub number_of_keys: u64,
    pub fees: Fees,
    /// Paid by the buyer into the escrow pool.
    pub escrow_amount: u64,
    /// Paid by the buyer to the treasury.
    pub treasury_amount: u64,
    /// Burn tokens destroyed from the buyer's balance.
    pub burn_amount: u64,
}

/// The group that newcomers join.
pub open spec fn current_group(g: Game) -> int {
    g.total_holders as int / MAX_HOLDERS as int
}

/// The group count follows the holder count: as many groups as it takes to hold
/// the holders, and one pending-revenue entry per group.
pub open spec fn groups_consistent(g: Game, ledger: Seq<u64>) -> bool {
    &&& ledger.len() == g.total_groups
    &&& g.total_holders <= g.total_groups * MAX_HOLDERS
    &&& g.total_groups == 0 || (g.total_groups - 1) * MAX_HOLDERS < g.total_holders
}

/// Whether the group count and the pending-revenue entries follow the holder count.
pub fn groups_consistent_check(game: &Game, ledger: &GroupRevenueCounter) -> (r: bool)
    ensures
        r == groups_consistent(*game, ledger.group_counter@),
{
    let groups = game.total_groups as u128;
    let holders = game.total_holders as u128;
    let cap = MAX_HOLDERS as u128;
    ledger.group_counter.len() as u128 == groups && holders <= groups * cap && (groups == 0 || (
    groups - 1) * cap < holders)
}

/// A purchase into `group_number` opens a new group: the last one is full and
/// the buyer targets the next.
pub open spec fn opens_group(g: Game, group_number: u64) -> bool {
    g.total_holders == g.total_groups * MAX_HOLDERS && group_number == current_group(g)
}

/// This is the buyer's first purchase in the round.
pub open spec fn first_purchase(g: Game, d: BuyerGameData) -> bool {
    d.game_id != g.game_id || d.first_time_buying
}

/// The group's holders as the purchase finds them: a group being opened starts empty.
pub open spec fn holders_before(g: Game, kh: KeyHolders, group_number: u64) -> Seq<KeyHolder> {
    if opens_group(g, group_number) {
        Seq::empty()
    } else {
        kh.holders@
    }
}

/// The pending revenue of each group as the purchase finds it: a group being
/// opened gets a new, empty entry.
pub open spec fn ledger_before(g: Game, ledger: Seq<u64>, group_number: u64) -> Seq<u64> {
    if opens_group(g, group_number) {
        ledger.push(0)
    } else {
        ledger
    }
}

/// The group rule: a buyer tops up a position in a closed group they belong to,
/// or buys into the group that is filling, which they belong to or join with
/// their first purchase of the round.
pub open spec fn may_buy_into(
    g: Game,
    kh: KeyHolders,
    d: BuyerGameData,
    buyer: Identity,
    group_number: u64,
) -> bool {
    let members = holders_before(g, kh, group_number);
    &&& kh.group_number == group_number
    &&& if group_number < current_group(g) {
        is_member(members, buyer) && !first_purchase(g, d)
    } else {
        group_number == current_group(g) && (is_member(members, buyer) || first_purchase(g, d))
    }
}

/// How many keys the timer can still take: none once it reaches `MAX_TIMER` past now.
pub open spec fn extension_keys(g: Game, now: int) -> int {
    if now + MAX_TIMER >= g.timer_end {
        (now + MAX_TIMER - g.timer_end) / (INC_TIME as int)
    } else {
        0
    }
}

/// The keys a purchase of `requested` keys actually gets.
pub open spec fn available_keys(g: Game, now: int, requested: u64) -> nat {
    if requested <= extension_keys(g, now) {
        requested as nat
    } else {
        extension_keys(g, now) as nat
    }
}

/// Most the buyer agreed to pay, quoted `suggested`.
pub open spec fn max_payment(suggested: u64) -> int {
    suggested * (DIVIDER + PRICE_TOLERANCE) / (DIVIDER as int)
}

/// The referrer side of a purchase: whether there is one, whether its record
/// matches, and what it has earned so far.
#[derive(Clone, Copy, Debug, PartialEq, Eq, Structural)]
pub struct ReferralCheck {
    pub has_referral: bool,
    pub valid: bool,
    pub total_earned: u64,
}

/// Committing the purchase keeps every counter within its range.
pub open spec fn commit_fits(
    g: Game,
    kh: KeyHolders,
    d: BuyerGameData,
    ledger: Seq<u64>,
    buyer: Identity,
    group_number: u64,
    n: nat,
    referral: ReferralCheck,
) -> bool {
    let total = batch_total(g.current_price as int, n);
    let key = key_holders_part(total);
    let refd = referral_part(total, referral.has_referral);
    &&& credit_fits(holders_before(g, kh, group_number), buyer, n as u64)
    &&& ledger_before(g, ledger, group_number)[group_number as int] + key <= u64::MAX
    &&& g.total_keys + n <= u64::MAX
    &&& g.total_amount + total <= u64::MAX
    &&& g.prize_pool_balance + prize_pool_part(total, referral.has_referral) <= u64::MAX
    &&& g.revenue_earned + key <= u64::MAX
    &&& g.referral_earned + refd <= u64::MAX
    &&& referral.total_earned + refd <= u64::MAX
    &&& first_purchase(g, d) ==> g.total_holders + 1 <= u64::MAX
    &&& opens_group(g, group_number) ==> g.total_groups + 1 <= u64::MAX
    &&& g.timer_end + INC_TIME * n <= i64::MAX
}

/// Why a purchase is rejected, checked in this order; `None` when it goes through.
pub open spec fn purchase_error(
    g: Game,
    kh: KeyHolders,
    d: BuyerGameData,
    ledger: Seq<u64>,
    acc: PurchaseAccounts,
    group_number: u64,
    suggested_amount: u64,
    requested: u64,
    referral: ReferralCheck,
) -> Option<BidError> {
    let n = available_keys(g, acc.now as int, requested);
    if !(g.active && acc.now < g.timer_end) {
        Some(BidError::GameEnded)
    } else if !may_buy_into(g, kh, d, acc.buyer, group_number) {
        Some(BidError::IncorrectGroupNumber)
    } else if acc.treasury != g.treasury {
        Some(BidError::NotTreasury)
    } else if referral.has_referral && !referral.valid {
        Some(BidError::IncorrectReferralData)
    } else if acc.bid_token_mint != g.bid_token_mint {
        Some(BidError::IncorrectBidToken)
    } else if acc.bid_token_balance < BID_TOKENS_PER_TX * n {
        Some(BidError::InsufficientBidTokens)
    } else if !quote_fits(g.current_price as int, n) {
        Some(BidError::ArithmeticOverflow)
    } else if max_payment(suggested_amount) < batch_total(g.current_price as int, n) {
        Some(BidError::InvalidPaymentAmount)
    } else if !commit_fits(g, kh, d, ledger, acc.buyer, group_number, n, referral) {
        Some(BidError::ArithmeticOverflow)
    } else {
        None
    }
}

/// The round after a purchase of `n` keys quoted `f`.
pub open spec fn game_after_purchase(
    g: Game,
    acc: PurchaseAccounts,
    group_number: u64,
    first: bool,
    n: nat,
    f: Fees,
) -> Game {
    Game {
        last_bidder: acc.buyer,
        total_keys: (g.total_keys + n) as u64,
        total_amount: (g.total_amount + f.total_amount) as u64,
        current_price: f.next_key_price,
        prize_pool_balance: (g.prize_pool_balance + f.prize_pool_amount) as u64,
        revenue_earned: (g.revenue_earned + f.key_holders_amount) as u64,
        referral_earned: (g.referral_earned + f.referral_amount) as u64,
        last_purchase_time: acc.now,
        timer_end: (g.timer_end + INC_TIME * n) as i64,
        total_holders: if first {
            (g.total_holders + 1) as u64
        } else {
            g.total_holders
        },
        total_groups: if opens_group(g, group_number) {
            (g.total_groups + 1) as u64
        } else {
            g.total_groups
        },
        ..g
    }
}

/// The timer cap: the keys a purchase gets never number more than requested, and
/// never carry the timer past `MAX_TIMER` from now; a timer already past that
/// takes no key at all.
pub proof fn lemma_timer_cap(g: Game, now: int, requested: u64)
    ensures
        available_keys(g, now, requested) <= requested,
        g.timer_end <= now + MAX_TIMER ==> g.timer_end + INC_TIME * available_keys(
            g,
            now,
            requested,
        ) <= now + MAX_TIMER,
        g.timer_end > now + MAX_TIMER ==> available_keys(g, now, requested) == 0,
        available_keys(g, now, available_keys(g, now, requested) as u64) == available_keys(
            g,
            now,
            requested,
        ),
{
    let n = available_keys(g, now, requested) as int;
    if now + MAX_TIMER >= g.timer_end {
        let e = now + MAX_TIMER - g.timer_end;
        assert(900 * n <= e) by (nonlinear_arith)
            requires
                e >= 0,
                0 <= n <= e / 900,
        ;
    }
}

/// A buyer cannot buy into any group but the one that is filling or a closed one
/// they already hold a position in: while the round is open, any other target is
/// rejected with `IncorrectGroupNumber`, whatever else the purchase carries.
pub proof fn lemma_group_rule(
    g: Game,
    kh: KeyHolders,
    d: BuyerGameData,
    ledger: Seq<u64>,
    acc: PurchaseAccounts,
    group_number: u64,
    suggested_amount: u64,
    requested: u64,
    referral: ReferralCheck,
)
    requires
        g.active && acc.now < g.timer_end,
        group_number != current_group(g),
        !(group_number < current_group(g) && is_member(kh.holders@, acc.buyer)),
    ensures
        purchase_error(g, kh, d, ledger, acc, group_number, suggested_amount, requested, referral)
            == Some(BidError::IncorrectGroupNumber),
{
}

/// The keys available once the timer cap is applied.
fn capped_keys(g: &Game, now: i64, requested: u64) -> (r: u64)
    ensures
        r == available_keys(*g, now as int, requested),
{
    let reach: i128 = now as i128 + MAX_TIMER as i128;
    let extension: i128 = if reach >= g.timer_end as i128 {
        (reach - g.timer_end as i128) / (INC_TIME as i128)
    } else {
        0
    };
    if (requested as i128) <= extension {
        requested
    } else {
        extension as u64
    }
}

/// Checks a purchase against every rule without changing anything, and quotes it.
fn plan_purchase(
    game: &Game,
    key_holders: &KeyHolders,
    buyer_data: &BuyerGameData,
    revenue: &GroupRevenueCounter,
    acc: &PurchaseAccounts,
    group_number: u64,
    suggested_amount: u64,
    number_of_keys: u64,
    referral: ReferralCheck,
) -> (r: Result<(u64, Fees), BidError>)
    requires
        groups_consistent(*game, revenue.group_counter@),
        key_holders.wf(),
    ensures
        match r {
            Ok((n, f)) => {
                &&& purchase_error(
                    *game,
                    *key_holders,
                    *buyer_data,
                    revenue.group_counter@,
                    *acc,
                    group_number,
                    suggested_amount,
                    number_of_keys,
                    referral,
                ) is None
                &&& n == available_keys(*game, acc.now as int, number_of_keys)
                &&& is_quote(f, game.current_price as int, n as nat, referral.has_referral)
            },
            Err(e) => purchase_error(
                *game,
                *key_holders,
                *buyer_data,
                revenue.group_counter@,
                *acc,
                group_number,
                suggested_amount,
                number_of_keys,
                referral,
            ) == Some(e),
        },
{
    if !(game.active && acc.now < game.timer_end) {
        return Err(BidError::GameEnded);
    }
    let first = buyer_data.game_id != game.game_id || buyer_data.first_time_buying;
    let current: u64 = game.total_holders / MAX_HOLDERS;
    let opens = (game.total_holders as u128) == (game.total_groups as u128) * (
    MAX_HOLDERS as u128) && group_number == current;
    let member = if opens {
        false
    } else {
        check_if_buyer_is_in_the_group(key_holders, acc.buyer)
    };
    let eligible = key_holders.group_number == group_number && if group_number < current {
        member && !first
    } else {
        group_number == current && (member || first)
    };
    if !eligible {
        return Err(BidError::IncorrectGroupNumber);
    }
    if acc.treasury != game.treasury {
        return Err(BidError::NotTreasury);
    }
    if referral.has_referral && !referral.valid {
        return Err(BidError::IncorrectReferralData);
    }
    if acc.bid_token_mint != game.bid_token_mint {
        return Err(BidError::IncorrectBidToken);
    }
    let n = capped_keys(game, acc.now, number_of_keys);
    if (acc.bid_token_balance as u128) < (BID_TOKENS_PER_TX as u128) * (n as u128) {
        return Err(BidError::InsufficientBidTokens);
    }
    let fees = match calculate_fees_and_next_price(n, game.current_price, referral.has_referral) {
        Ok(f) => f,
        Err(e) => {
            return Err(e);
        },
    };
    assert((suggested_amount as u128) * 11000 <= 0xffff_ffff_ffff_ffffu128 * 11000)
        by (nonlinear_arith);
    let max_amount: u128 = (suggested_amount as u128) * ((DIVIDER + PRICE_TOLERANCE) as u128) / (
    DIVIDER as u128);
    if max_amount < fees.total_amount as u128 {
        return Err(BidError::InvalidPaymentAmount);
    }
    proof {
        lemma_fee_split_exact(fees.total_amount as int, referral.has_referral);
    }
    // the counters the purchase will move must all stay in range
    let keys_fit = if opens {
        true
    } else {
        match find_holder(&key_holders.holders, acc.buyer) {
            Some(i) => (key_holders.holders[i].keys as u128) + (n as u128) <= u64::MAX as u128,
            None => true,
        }
    };
    let ledger_len = revenue.group_counter.len();
    let pending: u64 = if opens {
        0
    } else {
        assert(group_number < ledger_len);
        revenue.group_counter[group_number as usize]
    };
    let max: u128 = u64::MAX as u128;
    let fits = keys_fit
        && (pending as u128) + (fees.key_holders_amount as u128) <= max
        && (game.total_keys as u128) + (n as u128) <= max
        && (game.total_amount as u128) + (fees.total_amount as u128) <= max
        && (game.prize_pool_balance as u128) + (fees.prize_pool_amount as u128) <= max
        && (game.revenue_earned as u128) + (fees.key_holders_amount as u128) <= max
        && (game.referral_earned as u128) + (fees.referral_amount as u128) <= max
        && (referral.total_earned as u128) + (fees.referral_amount as u128) <= max
        && (!first || game.total_holders < u64::MAX)
        && (!opens || game.total_groups < u64::MAX)
        && (game.timer_end as i128) + (INC_TIME as i128) * (n as i128) <= i64::MAX as i128;
    if !fits {
        return Err(BidError::ArithmeticOverflow);
    }
    Ok((n, fees))
}

/// The records after a purchase that `purchase_error` lets through: the round
/// moves on, the buyer's position and the group's pending revenue grow, and the
/// buyer is no longer new to the round.
pub open spec fn purchased(
    g: Game,
    g2: Game,
    kh: KeyHolders,
    kh2: KeyHolders,
    d: BuyerGameData,
    d2: BuyerGameData,
    ledger: Seq<u64>,
    ledger2: Seq<u64>,
    acc: PurchaseAccounts,
    group_number: u64,
    requested: u64,
    has_referral: bool,
    p: Purchase,
) -> bool {
    let n = available_keys(g, acc.now as int, requested);
    let before = ledger_before(g, ledger, group_number);
    &&& p.number_of_keys == n
    &&& is_quote(p.fees, g.current_price as int, n, has_referral)
    &&& p.treasury_amount == p.fees.treasury_amount
    &&& p.escrow_amount == p.fees.total_amount - p.fees.treasury_amount
    &&& p.burn_amount == BID_TOKENS_PER_TX * n
    &&& g2 == game_after_purchase(g, acc, group_number, first_purchase(g, d), n, p.fees)
    &&& kh2.group_number == kh.group_number
    &&& kh2.holders@ == credit_keys(holders_before(g, kh, group_number), acc.buyer, n as u64)
    &&& ledger2 == before.update(
        group_number as int,
        (before[group_number as int] + p.fees.key_holders_amount) as u64,
    )
    &&& d2 == BuyerGameData { game_id: g.game_id, first_time_buying: false }
}

/// Commits a purchase that passed every check.
fn commit_purchase(
    game: &mut Game,
    key_holders: &mut KeyHolders,
    buyer_data: &mut BuyerGameData,
    revenue: &mut GroupRevenueCounter,
    acc: &PurchaseAccounts,
    group_number: u64,
    n: u64,
    fees: Fees,
    referral: ReferralCheck,
) -> (p: Purchase)
    requires
        groups_consistent(*old(game), old(revenue).group_counter@),
        old(key_holders).wf(),
        old(game).active && acc.now < old(game).timer_end,
        may_buy_into(*old(game), *old(key_holders), *old(buyer_data), acc.buyer, group_number),
        n == available_keys(*old(game), acc.now as int, n),
        acc.bid_token_balance >= BID_TOKENS_PER_TX * n,
        is_quote(fees, old(game).current_price as int, n as nat, referral.has_referral),
        commit_fits(
            *old(game),
            *old(key_holders),
            *old(buyer_data),
            old(revenue).group_counter@,
            acc.buyer,
            group_number,
            n as nat,
            referral,
        ),
    ensures
        purchased(
            *old(game),
            *final(game),
            *old(key_holders),
            *final(key_holders),
            *old(buyer_data),
            *final(buyer_data),
            old(revenue).group_counter@,
            final(revenue).group_counter@,
            *acc,
            group_number,
            n,
            referral.has_referral,
            p,
        ),
        groups_consistent(*final(game), final(revenue).group_counter@),
        final(key_holders).wf(),
{
    let ghost g0 = *game;
    proof {
        lemma_fee_split_exact(fees.total_amount as int, referral.has_referral);
    }
    let first = buyer_data.game_id != game.game_id || buyer_data.first_time_buying;
    let current: u64 = game.total_holders / MAX_HOLDERS;
    let opens = (game.total_holders as u128) == (game.total_groups as u128) * (
    MAX_HOLDERS as u128) && group_number == current;
    if opens {
        revenue.group_counter.push(0);
        key_holders.holders = Vec::new();
    }
    adjust_revenue(revenue, group_number, fees.key_holders_amount);
    update_key_holders(key_holders, acc.buyer, n);
    *buyer_data = BuyerGameData { game_id: game.game_id, first_time_buying: false };
    let g = *game;
    *game = Game {
        last_bidder: acc.buyer,
        total_keys: g.total_keys + n,
        total_amount: g.total_amount + fees.total_amount,
        current_price: fees.next_key_price,
        prize_pool_balance: g.prize_pool_balance + fees.prize_pool_amount,
        revenue_earned: g.revenue_earned + fees.key_holders_amount,
        referral_earned: g.referral_earned + fees.referral_amount,
        last_purchase_time: acc.now,
        timer_end: g.timer_end + INC_TIME * (n as i64),
        total_holders: if first {
            g.total_holders + 1
        } else {
            g.total_holders
        },
        total_groups: if opens {
            g.total_groups + 1
        } else {
            g.total_groups
        },
        ..g
    };
    Purchase {
        number_of_keys: n,
        fees,
        escrow_amount: fees.total_amount - fees.treasury_amount,
        treasury_amount: fees.treasury_amount,
        burn_amount: BID_TOKENS_PER_TX * n,
    }
}

/// Buys up to `number_of_keys` keys into group `group_number`, paying at most
/// `suggested_amount` plus the slippage tolerance. On success the caller owes the
/// transfers in the returned `Purchase`; on failure nothing has changed.
pub fn buy_keys(
    game: &mut Game,
    key_holders: &mut KeyHolders,
    buyer_game_account: &mut BuyerGameData,
    group_revenue_counter: &mut GroupRevenueCounter,
    accounts: &PurchaseAccounts,
    group_number: u64,
    suggested_amount: u64,
    number_of_keys: u64,
) -> (r: Result<Purchase, BidError>)
    requires
        groups_consistent(*old(game), old(group_revenue_counter).group_counter@),
        old(key_holders).wf(),
    ensures
        groups_consistent(*final(game), final(group_revenue_counter).group_counter@),
        final(key_holders).wf(),
        match r {
            Ok(p) => {
                &&& purchase_error(
                    *old(game),
                    *old(key_holders),
                    *old(buyer_game_account),
                    old(group_revenue_counter).group_counter@,
                    *accounts,
                    group_number,
                    suggested_amount,
                    number_of_keys,
                    ReferralCheck { has_referral: false, valid: true, total_earned: 0 },
                ) is None
                &&& purchased(
                    *old(game),
                    *final(game),
                    *old(key_holders),
                    *final(key_holders),
                    *old(buyer_game_account),
                    *final(buyer_game_account),
                    old(group_revenue_counter).group_counter@,
                    final(group_revenue_counter).group_counter@,
                    *accounts,
                    group_number,
                    number_of_keys,
                    false,
                    p,
                )
                &&& p.number_of_keys <= number_of_keys
                &&& final(game).current_price >= old(game).current_price
                &&& old(game).timer_end <= accounts.now + MAX_TIMER ==> final(game).timer_end
                    <= accounts.now + MAX_TIMER
                &&& group_number == current_group(*old(game)) || (group_number < current_group(
                    *old(game),
                ) && is_member(old(key_holders).holders@, accounts.buyer))
            },
            Err(e) => {
                &&& purchase_error(
                    *old(game),
                    *old(key_holders),
                    *old(buyer_game_account),
                    old(group_revenue_counter).group_counter@,
                    *accounts,
                    group_number,
                    suggested_amount,
                    number_of_keys,
                    ReferralCheck { has_referral: false, valid: true, total_earned: 0 },
                ) == Some(e)
                &&& *final(game) == *old(game)
                &&& final(key_holders).group_number == old(key_holders).group_number
                &&& final(key_holders).holders@ == old(key_holders).holders@
                &&& *final(buyer_game_account) == *old(buyer_game_account)
                &&& final(group_revenue_counter).group_counter@ == old(
                    group_revenue_counter,
                ).group_counter@
            },
        },
{
    let referral = ReferralCheck { has_referral: false, valid: true, total_earned: 0 };
    match plan_purchase(
        game,
        key_holders,
        buyer_game_account,
        group_revenue_counter,
        accounts,
        group_number,
        suggested_amount,
        number_of_keys,
        referral,
    ) {
        Err(e) => Err(e),
        Ok((n, fees)) => {
            proof {
                lemma_timer_cap(*game, accounts.now as int, number_of_keys);
                lemma_price_non_decreasing(game.current_price as int, 0, n as nat);
            }
            let p = commit_purchase(
                game,
                key_holders,
                buyer_game_account,
                group_revenue_counter,
                accounts,
                group_number,
                n,
                fees,
                referral,
            );
            Ok(p)
        },
    }
}

/// The referral record may back a purchase by `buyer` quoting `code`: it is
/// active, carries that code, and is not the buyer's own.
pub open spec fn referral_matches(r: ReferralAccount, buyer: Identity, code: Seq<char>) -> bool {
    r.owner != buyer && r.ref_code@ == code && r.active
}

/// The referrer side of a purchase backed by `r`.
pub open spec fn referral_check_of(r: ReferralAccount, buyer: Identity, code: Seq<char>) -> ReferralCheck {
    ReferralCheck { has_referral: true, valid: referral_matches(r, buyer, code), total_earned: r.total_earned }
}

/// Buys keys as `buy_keys` does, with a referral code: a fifth of the escrowed
/// payment goes to the referrer's record instead of the prize pool.
pub fn buy_keys_with_referral_code(
    game: &mut Game,
    key_holders: &mut KeyHolders,
    buyer_game_account: &mut BuyerGameData,
    group_revenue_counter: &mut GroupRevenueCounter,
    referral_account: &mut ReferralAccount,
    accounts: &PurchaseAccounts,
    group_number: u64,
    ref_code: String,
    suggested_amount: u64,
    number_of_keys: u64,
) -> (r: Result<Purchase, BidError>)
    requires
        groups_consistent(*old(game), old(group_revenue_counter).group_counter@),
        old(key_holders).wf(),
    ensures
        groups_consistent(*final(game), final(group_revenue_counter).group_counter@),
        final(key_holders).wf(),
        match r {
            Ok(p) => {
                &&& purchase_error(
                    *old(game),
                    *old(key_holders),
                    *old(buyer_game_account),
                    old(group_revenue_counter).group_counter@,
                    *accounts,
                    group_number,
                    suggested_amount,
                    number_of_keys,
                    referral_check_of(*old(referral_account), accounts.buyer, ref_code@),
                ) is None
                &&& purchased(
                    *old(game),
                    *final(game),
                    *old(key_holders),
                    *final(key_holders),
                    *old(buyer_game_account),
                    *final(buyer_game_account),
                    old(group_revenue_counter).group_counter@,
                    final(group_revenue_counter).group_counter@,
                    *accounts,
                    group_number,
                    number_of_keys,
                    true,
                    p,
                )
                &&& final(referral_account).total_earned == old(referral_account).total_earned
                    + p.fees.referral_amount
                &&& final(referral_account).owner == old(referral_account).owner
                &&& final(referral_account).ref_code@ == old(referral_account).ref_code@
                &&& final(referral_account).active == old(referral_account).active
                &&& final(referral_account).created_at == old(referral_account).created_at
                &&& p.number_of_keys <= number_of_keys
                &&& final(game).current_price >= old(game).current_price
                &&& old(game).timer_end <= accounts.now + MAX_TIMER ==> final(game).timer_end
                    <= accounts.now + MAX_TIMER
                &&& group_number == current_group(*old(game)) || (group_number < current_group(
                    *old(game),
                ) && is_member(old(key_holders).holders@, accounts.buyer))
            },
            Err(e) => {
                &&& purchase_error(
                    *old(game),
                    *old(key_holders),
                    *old(buyer_game_account),
                    old(group_revenue_counter).group_counter@,
                    *accounts,
                    group_number,
                    suggested_amount,
                    number_of_keys,
                    referral_check_of(*old(referral_account), accounts.buyer, ref_code@),
                ) == Some(e)
                &&& *final(game) == *old(game)
                &&& final(key_holders).group_number == old(key_holders).group_number
                &&& final(key_holders).holders@ == old(key_holders).holders@
                &&& *final(buyer_game_account) == *old(buyer_game_account)
                &&& final(group_revenue_counter).group_counter@ == old(
                    group_revenue_counter,
                ).group_counter@
                &&& *final(referral_account) == *old(referral_account)
            },
        },
{
    let valid = referral_account.owner != accounts.buyer && referral_account.ref_code == ref_code
        && referral_account.active;
    let referral = ReferralCheck {
        has_referral: true,
        valid,
        total_earned: referral_account.total_earned,
    };
    match plan_purchase(
        game,
        key_holders,
        buyer_game_account,
        group_revenue_counter,
        accounts,
        group_number,
        suggested_amount,
        number_of_keys,
        referral,
    ) {
        Err(e) => Err(e),
        Ok((n, fees)) => {
            proof {
                lemma_timer_cap(*game, accounts.now as int, number_of_keys);
                lemma_price_non_decreasing(game.current_price as int, 0, n as nat);
            }
            let p = commit_purchase(
                game,
                key_holders,
                buyer_game_account,
                group_revenue_counter,
                accounts,
                group_number,
                n,
                fees,
                referral,
            );
            referral_account.total_earned = referral_account.total_earned + fees.referral_amount;
            Ok(p)
        },
    }
}

} // verus!
