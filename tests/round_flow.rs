use lastbid::claims::claim_revenue;
use lastbid::error::BidError;
use lastbid::game::{buy_keys, PurchaseAccounts};
use lastbid::ownership::initialize_ownership;
use lastbid::round::{initialize_game, release_main_prize};
use lastbid::state::{BuyerGameData, Game, GroupRevenueCounter, Identity, KeyHolders, Ownership};

const START: i64 = 1_000_000;

fn id(n: u128) -> Identity {
    Identity { hi: 7, lo: n }
}

fn owner() -> Identity {
    id(1)
}

fn treasury() -> Identity {
    id(2)
}

fn mint() -> Identity {
    id(3)
}

fn blank_game() -> Game {
    Game {
        game_id: 0,
        owner: Identity::empty(),
        last_bidder: Identity::empty(),
        treasury: Identity::empty(),
        bid_token_mint: Identity::empty(),
        current_price: 0,
        prize_pool_balance: 0,
        revenue_earned: 0,
        referral_earned: 0,
        last_purchase_time: 0,
        timer_end: 0,
        total_keys: 0,
        total_amount: 0,
        total_groups: 0,
        total_holders: 0,
        active: false,
        prized: false,
    }
}

fn fresh_buyer() -> BuyerGameData {
    BuyerGameData { game_id: 0, first_time_buying: false }
}

fn accounts(buyer: Identity, now: i64) -> PurchaseAccounts {
    PurchaseAccounts {
        buyer,
        treasury: treasury(),
        bid_token_mint: mint(),
        bid_token_balance: 10_000_000_000,
        now,
    }
}

struct World {
    ownership: Ownership,
    game: Game,
    ledger: GroupRevenueCounter,
    group0: KeyHolders,
}

fn started() -> World {
    let mut ownership = Ownership { owner: Identity::empty(), timestamp: 0, initialized: false };
    initialize_ownership(&mut ownership, owner(), START).unwrap();
    let mut game = blank_game();
    let mut ledger = GroupRevenueCounter { group_counter: vec![] };
    let seed =
        initialize_game(&mut game, &ownership, &mut ledger, owner(), mint(), treasury(), START)
            .unwrap();
    assert_eq!(seed, 25_000_000_000);
    World { ownership, game, ledger, group0: KeyHolders { group_number: 0, holders: vec![] } }
}

#[test]
fn round_starts_with_seed_and_base_timer() {
    let w = started();
    assert_eq!(w.game.game_id, 1);
    assert_eq!(w.game.current_price, 10_000_000);
    assert_eq!(w.game.prize_pool_balance, 25_000_000_000);
    assert_eq!(w.game.timer_end, START + 900);
    assert!(w.game.active);
    assert!(!w.game.prized);
    assert_eq!(w.game.last_bidder, Identity::empty());
}

#[test]
fn scenario_two_buyers_and_timer_cap() {
    let mut w = started();
    let a = id(10);
    let b = id(11);
    let mut da = fresh_buyer();
    let p = buy_keys(
        &mut w.game,
        &mut w.group0,
        &mut da,
        &mut w.ledger,
        &accounts(a, START + 100),
        0,
        10_000_000,
        1,
    )
    .unwrap();
    assert_eq!(p.number_of_keys, 1);
    assert_eq!(w.game.current_price, 10_010_000);
    assert_eq!(w.game.timer_end, START + 900 + 900);
    assert_eq!(w.game.last_bidder, a);
    assert_eq!(p.escrow_amount, 9_900_000);
    assert_eq!(p.treasury_amount, 100_000);
    assert_eq!(p.burn_amount, 25_000_000);
    assert_eq!(w.game.prize_pool_balance, 25_005_940_000);
    assert_eq!(w.game.revenue_earned, 3_960_000);
    assert_eq!(w.game.total_holders, 1);
    assert_eq!(w.game.total_groups, 1);
    assert_eq!(w.ledger.group_counter, vec![3_960_000]);
    assert_eq!(w.group0.holders.len(), 1);
    assert_eq!(w.group0.holders[0].keys, 1);
    assert_eq!(da, BuyerGameData { game_id: 1, first_time_buying: false });

    // less than INC_TIME left on the timer: the cap of MAX_TIMER past now clamps the batch
    let now = START + 1_000;
    assert!(w.game.timer_end - now < 900);
    let mut db = fresh_buyer();
    let p = buy_keys(
        &mut w.game,
        &mut w.group0,
        &mut db,
        &mut w.ledger,
        &accounts(b, now),
        0,
        400_000_000,
        100,
    )
    .unwrap();
    assert_eq!(p.number_of_keys, 31);
    assert!(p.number_of_keys < 100);
    assert_eq!(w.game.timer_end, START + 1_800 + 31 * 900);
    assert!(w.game.timer_end <= now + 28_800);
    assert_eq!(w.game.last_bidder, b);
    assert_eq!(w.game.total_keys, 32);
    assert_eq!(w.game.total_holders, 2);
    assert!(w.game.current_price > 10_010_000);
}

#[test]
fn capped_timer_sells_zero_keys() {
    let mut w = started();
    let mut d = fresh_buyer();
    let p = buy_keys(
        &mut w.game,
        &mut w.group0,
        &mut d,
        &mut w.ledger,
        &accounts(id(10), START),
        0,
        1_000_000_000,
        40,
    )
    .unwrap();
    assert_eq!(p.number_of_keys, 31);
    let mut d2 = fresh_buyer();
    let p = buy_keys(
        &mut w.game,
        &mut w.group0,
        &mut d2,
        &mut w.ledger,
        &accounts(id(11), START),
        0,
        0,
        5,
    )
    .unwrap();
    assert_eq!(p.number_of_keys, 0);
    assert_eq!(p.fees.total_amount, 0);
    assert_eq!(w.game.total_holders, 2);
    assert_eq!(w.game.last_bidder, id(11));
}

#[test]
fn repeat_buyer_tops_up_position() {
    let mut w = started();
    let a = id(10);
    let mut da = fresh_buyer();
    buy_keys(&mut w.game, &mut w.group0, &mut da, &mut w.ledger, &accounts(a, START), 0, 10_000_000, 1)
        .unwrap();
    buy_keys(&mut w.game, &mut w.group0, &mut da, &mut w.ledger, &accounts(a, START), 0, 30_000_000, 2)
        .unwrap();
    assert_eq!(w.game.total_holders, 1);
    assert_eq!(w.group0.holders.len(), 1);
    assert_eq!(w.group0.holders[0].keys, 3);
    assert_eq!(w.game.total_keys, 3);
}

#[test]
fn purchase_errors() {
    let mut w = started();
    let a = id(10);
    let mut d = fresh_buyer();
    let before = w.game;

    let late = accounts(a, START + 900);
    assert_eq!(
        buy_keys(&mut w.game, &mut w.group0, &mut d, &mut w.ledger, &late, 0, 10_000_000, 1),
        Err(BidError::GameEnded)
    );
    let mut acc = accounts(a, START);
    acc.treasury = id(99);
    assert_eq!(
        buy_keys(&mut w.game, &mut w.group0, &mut d, &mut w.ledger, &acc, 0, 10_000_000, 1),
        Err(BidError::NotTreasury)
    );
    let mut acc = accounts(a, START);
    acc.bid_token_mint = id(99);
    assert_eq!(
        buy_keys(&mut w.game, &mut w.group0, &mut d, &mut w.ledger, &acc, 0, 10_000_000, 1),
        Err(BidError::IncorrectBidToken)
    );
    let mut acc = accounts(a, START);
    acc.bid_token_balance = 49_999_999;
    assert_eq!(
        buy_keys(&mut w.game, &mut w.group0, &mut d, &mut w.ledger, &acc, 0, 30_000_000, 2),
        Err(BidError::InsufficientBidTokens)
    );
    // 10% slippage over 9_090_909 is 9_999_999, one short of the price
    assert_eq!(
        buy_keys(&mut w.game, &mut w.group0, &mut d, &mut w.ledger, &accounts(a, START), 0, 9_090_909, 1),
        Err(BidError::InvalidPaymentAmount)
    );
    assert_eq!(w.game, before);
    assert_eq!(d, fresh_buyer());
    assert!(w.group0.holders.is_empty());
    assert!(w.ledger.group_counter.is_empty());
    assert!(buy_keys(
        &mut w.game,
        &mut w.group0,
        &mut d,
        &mut w.ledger,
        &accounts(a, START),
        0,
        9_090_910,
        1
    )
    .is_ok());
}

#[test]
fn overflowing_price_is_rejected() {
    let mut w = started();
    w.game.current_price = u64::MAX;
    let mut d = fresh_buyer();
    assert_eq!(
        buy_keys(&mut w.game, &mut w.group0, &mut d, &mut w.ledger, &accounts(id(10), START), 0, u64::MAX, 1),
        Err(BidError::ArithmeticOverflow)
    );
}

/// Fills group 0 with a hundred first-time buyers.
fn filled() -> World {
    let mut w = started();
    for k in 0..100u128 {
        let mut d = fresh_buyer();
        buy_keys(
            &mut w.game,
            &mut w.group0,
            &mut d,
            &mut w.ledger,
            &accounts(id(100 + k), START),
            0,
            u64::MAX / 2,
            1,
        )
        .unwrap();
    }
    assert_eq!(w.game.total_holders, 100);
    assert_eq!(w.game.total_groups, 1);
    w
}

#[test]
fn group_rule_rejects_other_groups() {
    let mut w = started();
    let mut d = fresh_buyer();
    let mut group1 = KeyHolders { group_number: 1, holders: vec![] };
    assert_eq!(
        buy_keys(&mut w.game, &mut group1, &mut d, &mut w.ledger, &accounts(id(10), START), 1, 10_000_000, 1),
        Err(BidError::IncorrectGroupNumber)
    );
    // the group record presented must be the one named
    assert_eq!(
        buy_keys(&mut w.game, &mut group1, &mut d, &mut w.ledger, &accounts(id(10), START), 0, 10_000_000, 1),
        Err(BidError::IncorrectGroupNumber)
    );

    let mut w = filled();
    // a newcomer cannot join the closed group
    let mut newcomer = fresh_buyer();
    assert_eq!(
        buy_keys(&mut w.game, &mut w.group0, &mut newcomer, &mut w.ledger, &accounts(id(500), START), 0, 0, 1),
        Err(BidError::IncorrectGroupNumber)
    );
    // a member of the closed group may top up there
    let mut member = BuyerGameData { game_id: 1, first_time_buying: false };
    assert!(buy_keys(&mut w.game, &mut w.group0, &mut member, &mut w.ledger, &accounts(id(100), START), 0, 0, 1)
        .is_ok());
    // a holder of the closed group cannot move on to the new one
    let mut group1 = KeyHolders { group_number: 1, holders: vec![] };
    assert_eq!(
        buy_keys(&mut w.game, &mut group1, &mut member, &mut w.ledger, &accounts(id(100), START), 1, 0, 1),
        Err(BidError::IncorrectGroupNumber)
    );
    // the newcomer opens the next group
    assert!(buy_keys(&mut w.game, &mut group1, &mut newcomer, &mut w.ledger, &accounts(id(500), START), 1, 0, 1)
        .is_ok());
    assert_eq!(w.game.total_groups, 2);
    assert_eq!(w.game.total_holders, 101);
    assert_eq!(w.ledger.group_counter.len(), 2);
    assert_eq!(group1.holders.len(), 1);
}

#[test]
fn claim_revenue_sweeps_group_and_caps_payment() {
    let mut w = filled();
    let pending = w.ledger.group_counter[0];
    assert!(pending > 0);
    // the last buyers got no key once the timer cap was reached
    let payer = id(199);
    assert_eq!(w.group0.holders[99].keys, 0);
    assert_eq!(
        claim_revenue(&mut w.game, &mut w.group0, &mut w.ledger, payer, 1_000, 0),
        Err(BidError::NoRevenue)
    );
    w.group0.holders[99].total_earned = 5_000;
    w.game.revenue_earned = w.game.revenue_earned + 5_000;
    let revenue_before = w.game.revenue_earned;
    let paid = claim_revenue(&mut w.game, &mut w.group0, &mut w.ledger, payer, 1_000, 0).unwrap();
    assert_eq!(paid, 1_000);
    assert_eq!(w.game.revenue_earned, revenue_before - 5_000);
    assert!(w.group0.holders[99].claimed);
    assert_eq!(w.group0.holders[99].total_earned, 0);
    assert_eq!(w.group0.holders[0].total_earned, pending * w.group0.holders[0].keys);
    assert_eq!(w.ledger.group_counter[0], 0);

    // the claimed flag stays: a second claim is refused even with a new balance
    w.group0.holders[99].total_earned = 7;
    assert_eq!(
        claim_revenue(&mut w.game, &mut w.group0, &mut w.ledger, payer, 1_000, 0),
        Err(BidError::NoRevenue)
    );
}

#[test]
fn claim_revenue_pays_in_full_when_pool_suffices() {
    let mut w = filled();
    let payer = id(150);
    w.group0.holders[50].total_earned = 42;
    w.game.revenue_earned = w.game.revenue_earned + 42;
    let paid = claim_revenue(&mut w.game, &mut w.group0, &mut w.ledger, payer, 1_000_000, 0).unwrap();
    assert_eq!(paid, 42);
}

#[test]
fn claim_revenue_errors() {
    let mut w = started();
    assert_eq!(
        claim_revenue(&mut w.game, &mut w.group0, &mut w.ledger, id(10), 1_000, 0),
        Err(BidError::NoKeyHolders)
    );
    let mut d = fresh_buyer();
    buy_keys(&mut w.game, &mut w.group0, &mut d, &mut w.ledger, &accounts(id(10), START), 0, 10_000_000, 1)
        .unwrap();
    // the filling group cannot be claimed from
    assert_eq!(
        claim_revenue(&mut w.game, &mut w.group0, &mut w.ledger, id(10), 1_000, 0),
        Err(BidError::IncorrectGroupNumber)
    );
    let mut w = filled();
    assert_eq!(
        claim_revenue(&mut w.game, &mut w.group0, &mut w.ledger, id(9_999), 1_000, 0),
        Err(BidError::PayerNotInKeyHolders)
    );
    // a balance larger than the round's recorded revenue cannot be paid
    w.group0.holders[99].total_earned = w.game.revenue_earned + 1;
    assert_eq!(
        claim_revenue(&mut w.game, &mut w.group0, &mut w.ledger, id(199), 1_000, 0),
        Err(BidError::ArithmeticOverflow)
    );
}

#[test]
fn prize_without_holders_goes_to_treasury() {
    let mut w = started();
    let p = release_main_prize(&mut w.game, &w.ownership, owner(), treasury(), id(10), START + 900)
        .unwrap();
    assert_eq!(p.to_treasury, 25_000_000_000);
    assert_eq!(p.to_winner, 0);
    assert_eq!(w.game.prize_pool_balance, 0);
    assert!(w.game.prized);
    assert!(!w.game.active);
    assert_eq!(
        release_main_prize(&mut w.game, &w.ownership, owner(), treasury(), id(10), START + 900),
        Err(BidError::AlreadyPrized)
    );
}

#[test]
fn prize_with_holders_goes_to_last_bidder() {
    let mut w = started();
    let a = id(10);
    let mut d = fresh_buyer();
    buy_keys(&mut w.game, &mut w.group0, &mut d, &mut w.ledger, &accounts(a, START), 0, 10_000_000, 1)
        .unwrap();
    let end = w.game.timer_end;
    assert_eq!(
        release_main_prize(&mut w.game, &w.ownership, owner(), treasury(), a, end - 1),
        Err(BidError::TimerNotExpired)
    );
    assert_eq!(
        release_main_prize(&mut w.game, &w.ownership, id(10), treasury(), a, end),
        Err(BidError::Unauthorized)
    );
    assert_eq!(
        release_main_prize(&mut w.game, &w.ownership, owner(), id(99), a, end),
        Err(BidError::NotTreasury)
    );
    // someone else presented as the winner: the round stops, nothing is paid
    let p = release_main_prize(&mut w.game, &w.ownership, owner(), treasury(), id(11), end).unwrap();
    assert_eq!((p.to_treasury, p.to_winner), (0, 0));
    assert!(!w.game.active);
    assert!(!w.game.prized);
    assert_eq!(w.game.prize_pool_balance, 25_005_940_000);

    let p = release_main_prize(&mut w.game, &w.ownership, owner(), treasury(), a, end).unwrap();
    assert_eq!(p.to_treasury, 750_178_200);
    assert_eq!(p.to_winner, 24_255_761_800);
    assert_eq!(p.to_treasury + p.to_winner, 25_005_940_000);
    assert_eq!(w.game.prize_pool_balance, 0);
    assert!(w.game.prized);
}

#[test]
fn next_round_waits_for_rest() {
    let mut w = started();
    let end = w.game.timer_end;
    assert_eq!(
        initialize_game(&mut w.game, &w.ownership, &mut w.ledger, owner(), mint(), treasury(), end + 43_200),
        Err(BidError::RestNotFinished)
    );
    assert_eq!(
        initialize_game(&mut w.game, &w.ownership, &mut w.ledger, id(5), mint(), treasury(), end + 43_201),
        Err(BidError::Unauthorized)
    );
    w.game.revenue_earned = 7;
    initialize_game(&mut w.game, &w.ownership, &mut w.ledger, owner(), mint(), treasury(), end + 43_201)
        .unwrap();
    assert_eq!(w.game.game_id, 2);
    assert_eq!(w.game.prize_pool_balance, 25_000_000_007);
    assert_eq!(w.game.revenue_earned, 0);
}
