use stake_pool_bot::reserve::{eligible_amount, MIN_STAKE_BALANCE, NATIVE_UNITS_PER_COIN};

#[test]
fn eligible_amount_is_the_excess_over_the_floor() {
    assert_eq!(
        eligible_amount(5_000_000_000, 2_000_000, 1_000_000_000),
        Some(3_996_000_000)
    );
}

#[test]
fn eligible_amount_is_nothing_at_the_floor() {
    assert_eq!(eligible_amount(1_004_000_000, 2_000_000, 1_000_000_000), None);
}

#[test]
fn eligible_amount_is_one_just_above_the_floor() {
    assert_eq!(eligible_amount(1_004_000_001, 2_000_000, 1_000_000_000), Some(1));
}

#[test]
fn eligible_amount_is_nothing_below_the_floor() {
    assert_eq!(eligible_amount(1_003_999_999, 2_000_000, 1_000_000_000), None);
    assert_eq!(eligible_amount(0, 2_000_000, 1_000_000_000), None);
    assert_eq!(eligible_amount(0, 0, 0), None);
}

#[test]
fn eligible_amount_counts_the_rent_minimum_twice() {
    assert_eq!(eligible_amount(100, 10, 30), Some(50));
    assert_eq!(eligible_amount(100, 35, 30), None);
    assert_eq!(eligible_amount(100, 34, 30), Some(2));
}

#[test]
fn eligible_amount_with_a_floor_beyond_the_integer_range() {
    assert_eq!(eligible_amount(u64::MAX, u64::MAX, 0), None);
    assert_eq!(eligible_amount(u64::MAX, u64::MAX / 2, 2), None);
    assert_eq!(eligible_amount(u64::MAX, u64::MAX / 2, 1), None);
    assert_eq!(eligible_amount(u64::MAX, u64::MAX / 2, 0), Some(1));
    assert_eq!(eligible_amount(u64::MAX, u64::MAX, u64::MAX), None);
}

#[test]
fn eligible_amount_with_an_empty_floor_is_the_whole_balance() {
    assert_eq!(eligible_amount(7, 0, 0), Some(7));
    assert_eq!(eligible_amount(u64::MAX, 0, 0), Some(u64::MAX));
}

#[test]
fn eligible_amount_agrees_with_the_formula_on_a_grid() {
    for balance in 0..40u64 {
        for rent in 0..12u64 {
            for buffer in 0..12u64 {
                let floor = 2 * rent + buffer;
                let expected = if balance <= floor { None } else { Some(balance - floor) };
                assert_eq!(eligible_amount(balance, rent, buffer), expected);
            }
        }
    }
}

#[test]
fn safety_buffer_is_one_coin() {
    assert_eq!(MIN_STAKE_BALANCE, 1_000_000_000);
    assert_eq!(NATIVE_UNITS_PER_COIN, 1_000_000_000);
}
