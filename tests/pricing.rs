use lastbid::error::BidError;
use lastbid::pricing::calculate_fees_and_next_price;

#[test]
fn one_key_at_initial_price() {
    let f = calculate_fees_and_next_price(1, 10_000_000, false).unwrap();
    assert_eq!(f.total_amount, 10_000_000);
    assert_eq!(f.next_key_price, 10_010_000);
    assert_eq!(f.treasury_amount, 100_000);
    assert_eq!(f.key_holders_amount, 3_960_000);
    assert_eq!(f.referral_amount, 0);
    assert_eq!(f.prize_pool_amount, 5_940_000);
}

#[test]
fn one_key_with_referral() {
    let f = calculate_fees_and_next_price(1, 10_000_000, true).unwrap();
    assert_eq!(f.total_amount, 10_000_000);
    assert_eq!(f.treasury_amount, 100_000);
    assert_eq!(f.key_holders_amount, 3_960_000);
    assert_eq!(f.referral_amount, 1_980_000);
    assert_eq!(f.prize_pool_amount, 3_960_000);
}

#[test]
fn two_keys_compound_twice() {
    let f = calculate_fees_and_next_price(2, 10_000_000, false).unwrap();
    assert_eq!(f.total_amount, 20_010_000);
    assert_eq!(f.next_key_price, 10_020_010);
    assert_eq!(f.treasury_amount, 200_100);
    assert_eq!(f.key_holders_amount, 7_923_960);
    assert_eq!(f.prize_pool_amount, 11_885_940);
}

#[test]
fn rounding_remainder_goes_to_prize_pool() {
    let f = calculate_fees_and_next_price(1, 1_234_567, true).unwrap();
    assert_eq!(f.next_key_price, 1_235_801);
    assert_eq!(f.treasury_amount, 12_345);
    assert_eq!(f.key_holders_amount, 488_888);
    assert_eq!(f.referral_amount, 244_444);
    assert_eq!(f.prize_pool_amount, 488_890);
    assert_eq!(
        f.total_amount,
        f.treasury_amount + f.prize_pool_amount + f.key_holders_amount + f.referral_amount
    );
}

#[test]
fn split_is_exact_over_many_batches() {
    for n in 0..40u64 {
        for referral in [false, true] {
            let f = calculate_fees_and_next_price(n, 9_876_543, referral).unwrap();
            assert_eq!(
                f.total_amount,
                f.treasury_amount + f.prize_pool_amount + f.key_holders_amount + f.referral_amount
            );
            if !referral {
                assert_eq!(f.referral_amount, 0);
            }
        }
    }
}

#[test]
fn next_price_is_price_compounded_per_key() {
    let mut p: u64 = 10_000_000;
    let mut total: u64 = 0;
    for _ in 0..25 {
        total += p;
        p = p * 10_010 / 10_000;
    }
    let f = calculate_fees_and_next_price(25, 10_000_000, false).unwrap();
    assert_eq!(f.next_key_price, p);
    assert_eq!(f.total_amount, total);
    assert!(f.next_key_price > 10_000_000);
}

#[test]
fn zero_keys_cost_nothing() {
    let f = calculate_fees_and_next_price(0, 10_000_000, true).unwrap();
    assert_eq!(f.total_amount, 0);
    assert_eq!(f.next_key_price, 10_000_000);
    assert_eq!(f.prize_pool_amount, 0);
}

#[test]
fn small_price_never_decreases() {
    let f = calculate_fees_and_next_price(3, 5, false).unwrap();
    assert_eq!(f.next_key_price, 5);
    assert_eq!(f.total_amount, 15);
}

#[test]
fn overflowing_quote_is_rejected() {
    assert_eq!(
        calculate_fees_and_next_price(1, u64::MAX, false),
        Err(BidError::ArithmeticOverflow)
    );
    assert_eq!(
        calculate_fees_and_next_price(3, u64::MAX / 2, false),
        Err(BidError::ArithmeticOverflow)
    );
}
