use boat_registry::error::ErrorCode;
use boat_registry::fee::{compute_fee, BPS_DENOMINATOR};

#[test]
fn fee_of_one_unit_of_currency_at_two_and_a_half_percent() {
    assert_eq!(compute_fee(1_000_000_000, 250), Ok(25_000_000));
}

#[test]
fn fee_is_rounded_towards_zero() {
    assert_eq!(compute_fee(39, 250), Ok(0));
    assert_eq!(compute_fee(40, 250), Ok(1));
    assert_eq!(compute_fee(79, 250), Ok(1));
    assert_eq!(compute_fee(80, 250), Ok(2));
    assert_eq!(compute_fee(9_999, 1), Ok(0));
    assert_eq!(compute_fee(10_000, 1), Ok(1));
}

#[test]
fn fee_at_rate_zero_is_zero() {
    assert_eq!(compute_fee(1, 0), Ok(0));
    assert_eq!(compute_fee(u64::MAX, 0), Ok(0));
}

#[test]
fn fee_of_price_zero_is_zero() {
    assert_eq!(compute_fee(0, 65535), Ok(0));
}

#[test]
fn fee_at_the_whole_price_is_the_price() {
    assert_eq!(BPS_DENOMINATOR, 10_000);
    assert_eq!(compute_fee(u64::MAX, 10_000), Ok(u64::MAX));
    assert_eq!(compute_fee(12_345, 10_000), Ok(12_345));
}

#[test]
fn fee_is_the_floor_of_the_quotient_on_a_grid_of_inputs() {
    let prices: [u64; 7] =
        [1, 2, 9_999, 10_000, 123_456_789, 1 << 40, 281_474_976_710_655];
    let rates: [u16; 6] = [0, 1, 250, 9_999, 10_000, 65_535];
    for price in prices {
        for rate in rates {
            let exact = (price as u128) * (rate as u128) / 10_000;
            assert!(exact <= u64::MAX as u128);
            assert_eq!(compute_fee(price, rate), Ok(exact as u64));
        }
    }
}

#[test]
fn fee_keeps_the_low_64_bits_of_a_quotient_that_does_not_fit() {
    assert_eq!(
        compute_fee(3_000_000_000_000_000_000, 65_535),
        Ok(1_213_755_926_290_448_384)
    );
    assert_eq!(compute_fee(u64::MAX, 65_535), Ok(10_210_272_844_798_236_812));
}

#[test]
fn fee_never_overflows() {
    let prices: [u64; 4] = [1, u64::MAX / 2, u64::MAX - 1, u64::MAX];
    let rates: [u16; 4] = [1, 10_000, 10_001, u16::MAX];
    for price in prices {
        for rate in rates {
            assert_ne!(compute_fee(price, rate), Err(ErrorCode::MathOverflow));
        }
    }
}
