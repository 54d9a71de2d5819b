use mantis_raydium_client::amount::{
    amount_display_to_raw, amount_raw_to_display, compute_add_liquidity, DecimalAmount,
};
use mantis_raydium_client::error::Error;

fn dec(negative: bool, mantissa: u64, scale: u32) -> DecimalAmount {
    DecimalAmount { negative, mantissa, scale }
}

#[test]
fn display_to_raw_scales_up() {
    // 1.5 under 6 decimals -> 1_500_000 raw units
    let r = amount_display_to_raw(&dec(false, 15, 1), 6).unwrap();
    assert_eq!(r, 1_500_000);
}

#[test]
fn display_to_raw_truncates_toward_zero() {
    // 1.2345678 under 6 decimals -> 1_234_567, never rounded up
    let r = amount_display_to_raw(&dec(false, 12_345_678, 7), 6).unwrap();
    assert_eq!(r, 1_234_567);
}

#[test]
fn display_to_raw_whole_number() {
    let r = amount_display_to_raw(&dec(false, 42, 0), 9).unwrap();
    assert_eq!(r, 42_000_000_000);
}

#[test]
fn display_to_raw_rejects_negative() {
    let e = amount_display_to_raw(&dec(true, 1, 0), 6).unwrap_err();
    assert!(matches!(e, Error::InvalidInput(_)));
}

#[test]
fn display_to_raw_negative_zero_is_zero() {
    let r = amount_display_to_raw(&dec(true, 0, 0), 6).unwrap();
    assert_eq!(r, 0);
}

#[test]
fn display_to_raw_overflow_is_math_error() {
    let e = amount_display_to_raw(&dec(false, u64::MAX, 0), 18).unwrap_err();
    assert!(matches!(e, Error::Math(_)));
}

#[test]
fn raw_to_display_keeps_full_precision() {
    let d = amount_raw_to_display(2_750_000_000, 9);
    assert_eq!(d, dec(false, 2_750_000_000, 9));
}

#[test]
fn round_trip_recovers_value_exactly() {
    // 2.75 with two fractional digits survives a trip through 9 decimals
    let raw = amount_display_to_raw(&dec(false, 275, 2), 9).unwrap();
    assert_eq!(raw, 2_750_000_000);
    let back = amount_raw_to_display(raw, 9);
    // same rational value: 2_750_000_000 / 10^9 == 275 / 10^2
    assert_eq!(back.mantissa as u128 * 100, 275u128 * 1_000_000_000);
    assert!(!back.negative);
}

#[test]
fn add_liquidity_worked_example() {
    // reserves (1_000_000, 2_000_000), input 100_000, slippage 1%:
    // k = 2e12, next input reserve 1_100_000,
    // next other reserve = floor(2e12 / 1.1e6) = 1_818_181,
    // other amount = 2_000_000 - 1_818_181 = 181_819,
    // minimum = floor(181_819 * 99 / 100) = 180_000
    let (other, min_other) =
        compute_add_liquidity(1_000_000, 2_000_000, 100_000, &dec(false, 1, 0)).unwrap();
    assert_eq!(other, 181_819);
    assert_eq!(min_other, 180_000);
}

#[test]
fn add_liquidity_product_never_increases() {
    let cases = [
        (1_000_000u64, 2_000_000u64, 100_000u64),
        (3u64, 7u64, 1u64),
        (1u64, u64::MAX, 1u64),
        (123_456_789u64, 987_654_321u64, 55_555u64),
    ];
    for (ir, or, amt) in cases {
        let (other, _) = compute_add_liquidity(ir, or, amt, &dec(false, 0, 0)).unwrap();
        assert!(other <= or);
        let lhs = (ir as u128 + amt as u128) * (or as u128 - other as u128);
        assert!(lhs <= ir as u128 * or as u128);
    }
}

#[test]
fn zero_slippage_keeps_amount() {
    let (other, min_other) =
        compute_add_liquidity(1_000_000, 2_000_000, 100_000, &dec(false, 0, 0)).unwrap();
    assert_eq!(min_other, other);
}

#[test]
fn fractional_slippage_rounds_down() {
    // 0.5%: floor(181_819 * 995 / 1000) = 180_909
    let (other, min_other) =
        compute_add_liquidity(1_000_000, 2_000_000, 100_000, &dec(false, 5, 1)).unwrap();
    assert_eq!(other, 181_819);
    assert_eq!(min_other, 180_909);
}

#[test]
fn slippage_at_hundred_is_rejected() {
    let e = compute_add_liquidity(1_000_000, 2_000_000, 100_000, &dec(false, 100, 0))
        .unwrap_err();
    assert!(matches!(e, Error::InvalidInput(_)));
}

#[test]
fn negative_slippage_is_rejected() {
    let e =
        compute_add_liquidity(1_000_000, 2_000_000, 100_000, &dec(true, 1, 0)).unwrap_err();
    assert!(matches!(e, Error::InvalidInput(_)));
}

#[test]
fn empty_pool_is_math_error() {
    let e = compute_add_liquidity(0, 2_000_000, 0, &dec(false, 1, 0)).unwrap_err();
    assert!(matches!(e, Error::Math(_)));
}

#[test]
fn slippage_just_below_hundred_gives_zero_minimum_floor() {
    // 99.9999%: the minimum is floored, never negative
    let (other, min_other) =
        compute_add_liquidity(1_000_000, 2_000_000, 100_000, &dec(false, 999_999, 4)).unwrap();
    assert_eq!(other, 181_819);
    // floor(181_819 * (10^6 - 999_999*10^2/10^2...)) computed exactly:
    // f = 100*10^4 - 999_999 = 1; floor(181_819 * 1 / 1_000_000) = 0
    assert_eq!(min_other, 0);
}
