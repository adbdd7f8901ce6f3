use eth_swap::amount::{one_unit, whole_units, Amount, UNIT_DECIMALS};
use web3::types::U256;

#[test]
fn one_and_a_half_units_display_as_one() {
    let balance = Amount::from_u128(1_500_000_000_000_000_000);
    assert_eq!(whole_units(balance), Amount::from_u64(1));
}

#[test]
fn just_under_one_unit_displays_as_zero() {
    let balance = Amount::from_u128(999_999_999_999_999_999);
    assert_eq!(whole_units(balance), Amount::from_u64(0));
}

#[test]
fn whole_units_drop_the_remainder() {
    assert_eq!(whole_units(Amount::from_u64(0)), Amount::from_u64(0));
    assert_eq!(
        whole_units(Amount::from_u128(1_000_000_000_000_000_000)),
        Amount::from_u64(1)
    );
    assert_eq!(
        whole_units(Amount::from_u128(1_999_999_999_999_999_999)),
        Amount::from_u64(1)
    );
    assert_eq!(
        whole_units(Amount::from_u128(123_456_789_000_000_000_000_000_001)),
        Amount::from_u64(123_456_789)
    );
    assert_eq!(
        whole_units(Amount::from_u128(u128::MAX)),
        Amount::from_u128(340_282_366_920_938_463_463)
    );
}

#[test]
fn whole_units_of_the_largest_amount() {
    let largest = Amount::from_words([u64::MAX; 4]);
    let expected = U256::MAX / U256::from(1_000_000_000_000_000_000u64);
    assert_eq!(whole_units(largest).to_words(), expected.0);
}

#[test]
fn one_unit_is_ten_to_the_eighteenth() {
    assert_eq!(UNIT_DECIMALS, 18);
    assert_eq!(one_unit(), Amount::from_u64(1_000_000_000_000_000_000));
    assert_eq!(one_unit().to_words(), [0x0de0_b6b3_a764_0000, 0, 0, 0]);
}

#[test]
fn amounts_are_held_least_significant_word_first() {
    let amount = Amount::from_u128((7u128 << 64) + 5);
    assert_eq!(amount.to_words(), [5, 7, 0, 0]);
    assert_eq!(Amount::from_u64(9).to_words(), [9, 0, 0, 0]);
    assert_eq!(Amount::from_words([1, 2, 3, 4]).to_words(), [1, 2, 3, 4]);
    assert_eq!(
        U256(Amount::from_u128(u128::MAX).to_words()),
        U256::from(u128::MAX)
    );
}

#[test]
fn amounts_convert_back_where_they_fit() {
    assert_eq!(Amount::from_u64(0).to_u128(), Some(0));
    assert_eq!(Amount::from_u128(u128::MAX).to_u128(), Some(u128::MAX));
    assert_eq!(
        Amount::from_words([5, 7, 0, 0]).to_u128(),
        Some((7u128 << 64) + 5)
    );
    assert_eq!(Amount::from_words([0, 0, 1, 0]).to_u128(), None);
    assert_eq!(Amount::from_words([0, 0, 0, 1]).to_u128(), None);
}
