use vstd::prelude::*;

use crate::error::BidError;
use crate::game::{groups_consistent, BASE_TIMER, REST_TIME};
use crate::pricing::{DISTRIBUTION_FEE, DIVIDER, INITIAL_KEY_PRICE, INITIAL_PRIZE_POOL};
use crate::state::{Game, GroupRevenueCounter, Identity, Ownership};

verus! {

/// Why a new round cannot start, checked in this order; `None` when it can.
pub open spec fn start_error(g: Game, o: Ownership, caller: Identity, now: i64) -> Option<BidError> {
    if caller != o.owner {
        Some(BidError::Unauthorized)
    } else if !(g.timer_end == 0 || g.timer_end + REST_TIME < now) {
        Some(BidError::RestNotFinished)
    } else if !(g.game_id + 1 <= u64::MAX && INITIAL_PRIZE_POOL + g.revenue_earned <= u64::MAX
        && now + BASE_TIMER <= i64::MAX) {
        Some(BidError::ArithmeticOverflow)
    } else {
        None
    }
}

/// A fresh round: the seed and the unclaimed key-holder revenue of the last round
/// form the prize pool, and every counter starts over.
pub open spec fn started_game(
    g: Game,
    caller: Identity,
    bid_token_mint: Identity,
    treasury: Identity,
    now: i64,
) -> Game {
    Game {
        game_id: (g.game_id + 1) as u64,
        owner: caller,
        last_bidder: Identity { hi: 0, lo: 0 },
        treasury,
        bid_token_mint,
        current_price: INITIAL_KEY_PRICE,
        prize_pool_balance: (INITIAL_PRIZE_POOL + g.revenue_earned) as u64,
        revenue_earned: 0,
        referral_earned: g.referral_earned,
        last_purchase_time: 0,
        timer_end: (now + BASE_TIMER) as i64,
        total_keys: 0,
        total_amount: 0,
        total_groups: 0,
        total_holders: 0,
        active: true,
        prized: false,
    }
}

/// Starts a new round, once the previous one has rested. On success the owner
/// owes the returned seed to the escrow pool.
pub fn initialize_game(
    game: &mut Game,
    ownership: &Ownership,
    group_revenue_counter: &mut GroupRevenueCounter,
    caller: Identity,
    bid_token_mint: Identity,
    treasury_wallet: Identity,
    now: i64,
) -> (r: Result<u64, BidError>)
    ensures
        match r {
            Ok(seed) => {
                &&& start_error(*old(game), *ownership, caller, now) is None
                &&& seed == INITIAL_PRIZE_POOL
                &&& *final(game) == started_game(
                    *old(game),
                    caller,
                    bid_token_mint,
                    treasury_wallet,
                    now,
                )
                &&& final(group_revenue_counter).group_counter@.len() == 0
                &&& groups_consistent(*final(game), final(group_revenue_counter).group_counter@)
            },
            Err(e) => {
                &&& start_error(*old(game), *ownership, caller, now) == Some(e)
                &&& *final(game) == *old(game)
                &&& final(group_revenue_counter).group_counter@ == old(
                    group_revenue_counter,
                ).group_counter@
            },
        },
{
    ownership.verify_ownership(caller)?;
    if !(game.timer_end == 0 || (game.timer_end as i128) + (REST_TIME as i128) < now as i128) {
        return Err(BidError::RestNotFinished);
    }
    if game.game_id == u64::MAX || game.revenue_earned > u64::MAX - INITIAL_PRIZE_POOL || now
        > i64::MAX - BASE_TIMER {
        return Err(BidError::ArithmeticOverflow);
    }
    let g = *game;
    *game = Game {
        game_id: g.game_id + 1,
        owner: caller,
        last_bidder: Identity::empty(),
        treasury: treasury_wallet,
        bid_token_mint,
        current_price: INITIAL_KEY_PRICE,
        prize_pool_balance: INITIAL_PRIZE_POOL + g.revenue_earned,
        revenue_earned: 0,
        referral_earned: g.referral_earned,
        last_purchase_time: 0,
        timer_end: now + BASE_TIMER,
        total_keys: 0,
        total_amount: 0,
        total_groups: 0,
        total_holders: 0,
        active: true,
        prized: false,
    };
    group_revenue_counter.group_counter = Vec::new();
    Ok(INITIAL_PRIZE_POOL)
}

/// The transfers out of the escrow pool that a prize release asks for.
#[derive(Clone, Copy, Debug, PartialEq, Eq, Structural)]
pub struct PrizePayout {
    pub to_treasury: u64,
    pub to_winner: u64,
}

/// The distribution fee on a prize pool of `pool`.
pub open spec fn distribution_fee(pool: int) -> int {
    pool * DISTRIBUTION_FEE / (DIVIDER as int)
}

/// Why the prize cannot be released, checked in this order; `None` when it can.
pub open spec fn release_error(
    g: Game,
    o: Ownership,
    caller: Identity,
    treasury: Identity,
    now: i64,
) -> Option<BidError> {
    if caller != o.owner {
        Some(BidError::Unauthorized)
    } else if treasury != g.treasury {
        Some(BidError::NotTreasury)
    } else if now < g.timer_end {
        Some(BidError::TimerNotExpired)
    } else if g.prized {
        Some(BidError::AlreadyPrized)
    } else {
        None
    }
}

/// The prize is paid out: to the treasury when nobody bought a key, else to the
/// recorded last bidder when that is who is presented.
pub open spec fn settles(g: Game, last_bidder: Identity) -> bool {
    g.total_holders == 0 || last_bidder == g.last_bidder
}

/// Ends the round and releases the prize pool: with no holder all of it goes to
/// the treasury; otherwise the presented last bidder, when it is the recorded
/// one, gets the pool less the distribution fee, which goes to the treasury.
/// When another account is presented the round only stops.
pub fn release_main_prize(
    game: &mut Game,
    ownership: &Ownership,
    caller: Identity,
    treasury: Identity,
    last_bidder: Identity,
    now: i64,
) -> (r: Result<PrizePayout, BidError>)
    ensures
        match r {
            Ok(p) => {
                let g = *old(game);
                let pool = g.prize_pool_balance as int;
                &&& release_error(g, *ownership, caller, treasury, now) is None
                &&& if settles(g, last_bidder) {
                    &&& *final(game) == (Game {
                        active: false,
                        prized: true,
                        prize_pool_balance: 0,
                        ..g
                    })
                    &&& p.to_treasury + p.to_winner == pool
                    &&& if g.total_holders == 0 {
                        p.to_treasury == pool && p.to_winner == 0
                    } else {
                        p.to_treasury == distribution_fee(pool)
                    }
                } else {
                    *final(game) == (Game { active: false, ..g }) && p.to_treasury == 0
                        && p.to_winner == 0
                }
            },
            Err(e) => release_error(*old(game), *ownership, caller, treasury, now) == Some(e)
                && *final(game) == *old(game),
        },
{
    ownership.verify_ownership(caller)?;
    if treasury != game.treasury {
        return Err(BidError::NotTreasury);
    }
    if now < game.timer_end {
        return Err(BidError::TimerNotExpired);
    }
    if game.prized {
        return Err(BidError::AlreadyPrized);
    }
    game.active = false;
    let pool = game.prize_pool_balance;
    if game.total_holders > 0 {
        if last_bidder == game.last_bidder {
            assert(0 <= (pool as int) * 300 / 10000 <= pool) by (nonlinear_arith);
            let fee: u64 = ((pool as u128) * (DISTRIBUTION_FEE as u128) / (DIVIDER as u128)) as u64;
            game.prized = true;
            game.prize_pool_balance = 0;
            Ok(PrizePayout { to_treasury: fee, to_winner: pool - fee })
        } else {
            Ok(PrizePayout { to_treasury: 0, to_winner: 0 })
        }
    } else {
        game.prized = true;
        game.prize_pool_balance = 0;
        Ok(PrizePayout { to_treasury: pool, to_winner: 0 })
    }
}

} // verus!
