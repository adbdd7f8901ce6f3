use std::time::{SystemTime, UNIX_EPOCH};

use eth_swap::deadline::{
    deadline, get_valid_timestamp, timestamp_from_reading, DEADLINE_MARGIN_MILLIS,
};
use eth_swap::error::SwapError;

#[test]
fn deadline_is_the_exact_sum() {
    assert_eq!(deadline(0, 0), Ok(0));
    assert_eq!(deadline(1_700_000_000_000, 300_000), Ok(1_700_000_300_000));
    assert_eq!(deadline(5, 7), Ok(12));
    assert_eq!(deadline(u128::MAX - 300_000, 300_000), Ok(u128::MAX));
    assert_eq!(deadline(u128::MAX, 0), Ok(u128::MAX));
    assert_eq!(deadline(0, u128::MAX), Ok(u128::MAX));
}

#[test]
fn deadline_fails_on_overflow() {
    assert_eq!(deadline(u128::MAX, 1), Err(SwapError::ArithmeticOverflow));
    assert_eq!(deadline(1, u128::MAX), Err(SwapError::ArithmeticOverflow));
    assert_eq!(deadline(u128::MAX, u128::MAX), Err(SwapError::ArithmeticOverflow));
    assert_eq!(
        deadline(u128::MAX - 299_999, 300_000),
        Err(SwapError::ArithmeticOverflow)
    );
}

#[test]
fn deadline_is_strictly_increasing_in_the_margin() {
    let now: u128 = 1_700_000_000_000;
    let margins: [u128; 6] = [0, 1, 2, 299_999, 300_000, 1 << 100];
    for pair in margins.windows(2) {
        let shorter = deadline(now, pair[0]).unwrap();
        let longer = deadline(now, pair[1]).unwrap();
        assert!(shorter < longer);
    }
}

#[test]
fn margin_is_three_hundred_seconds() {
    assert_eq!(DEADLINE_MARGIN_MILLIS, 300_000);
}

#[test]
fn timestamp_of_a_clock_before_the_epoch_is_an_error() {
    assert_eq!(timestamp_from_reading(None, 0), Err(SwapError::ClockBeforeEpoch));
    assert_eq!(
        timestamp_from_reading(None, 300_000),
        Err(SwapError::ClockBeforeEpoch)
    );
}

#[test]
fn timestamp_of_a_reading_is_its_deadline() {
    assert_eq!(timestamp_from_reading(Some(1_000), 300_000), Ok(301_000));
    assert_eq!(
        timestamp_from_reading(Some(u128::MAX), 1),
        Err(SwapError::ArithmeticOverflow)
    );
}

#[test]
fn valid_timestamp_lies_the_margin_after_now() {
    let before = SystemTime::now()
        .duration_since(UNIX_EPOCH)
        .unwrap()
        .as_millis();
    let stamp = get_valid_timestamp(DEADLINE_MARGIN_MILLIS).unwrap();
    let after = SystemTime::now()
        .duration_since(UNIX_EPOCH)
        .unwrap()
        .as_millis();
    assert!(stamp >= before + 300_000);
    assert!(stamp <= after + 300_000);
}

#[test]
fn valid_timestamp_fails_where_the_margin_cannot_be_added() {
    assert_eq!(
        get_valid_timestamp(u128::MAX),
        Err(SwapError::ArithmeticOverflow)
    );
}
