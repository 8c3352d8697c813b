use gorbage_hands::error::GorbageError;
use gorbage_hands::payout::{calculate_prize, platform_fee};

#[test]
fn three_winners_split_one_thousand() {
    assert_eq!(calculate_prize(1000, 1, 3), Ok(500));
    assert_eq!(calculate_prize(1000, 2, 3), Ok(300));
    assert_eq!(calculate_prize(1000, 3, 3), Ok(200));
}

#[test]
fn two_winners_split_one_hundred() {
    assert_eq!(calculate_prize(100, 1, 2), Ok(60));
    assert_eq!(calculate_prize(100, 2, 2), Ok(40));
}

#[test]
fn sole_winner_takes_the_pool() {
    assert_eq!(calculate_prize(u64::MAX, 1, 1), Ok(u64::MAX));
}

#[test]
fn rank_outside_the_table_is_refused() {
    assert_eq!(calculate_prize(1000, 2, 1), Err(GorbageError::InvalidPlacement));
    assert_eq!(calculate_prize(1000, 3, 2), Err(GorbageError::InvalidPlacement));
    assert_eq!(calculate_prize(1000, 0, 3), Err(GorbageError::InvalidPlacement));
    assert_eq!(calculate_prize(1000, 4, 3), Err(GorbageError::InvalidPlacement));
    assert_eq!(calculate_prize(1000, 1, 0), Err(GorbageError::InvalidPlacement));
    assert_eq!(calculate_prize(1000, 1, 4), Err(GorbageError::InvalidPlacement));
}

#[test]
fn floors_leave_a_remainder_in_the_pool() {
    let pool: u64 = 1009;
    let first = calculate_prize(pool, 1, 3).unwrap();
    let second = calculate_prize(pool, 2, 3).unwrap();
    let third = calculate_prize(pool, 3, 3).unwrap();
    assert_eq!((first, second, third), (504, 302, 201));
    assert_eq!(pool - (first + second + third), 2);
}

#[test]
fn platform_fee_is_a_fifth_rounded_down() {
    assert_eq!(platform_fee(1000), 200);
    assert_eq!(platform_fee(4), 0);
    assert_eq!(platform_fee(9), 1);
    assert_eq!(platform_fee(u64::MAX), u64::MAX / 5);
}
