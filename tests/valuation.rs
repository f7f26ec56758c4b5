use stablecoin_system::math::{collateral_value_of, covers_ratio, pow10_u128, required_value_of, seize_amount_of};
use stablecoin_system::state::CustomErrorCode;
use stablecoin_system::utils::{get_price, normalize_price, PriceQuote};

const NOW: i64 = 1_700_000_000;

fn quote(price: i64, expo: i32, publish_time: i64) -> Option<PriceQuote> {
    Some(PriceQuote { price, conf: 3, expo, publish_time })
}

#[test]
fn powers_of_ten() {
    assert_eq!(pow10_u128(0), 1);
    assert_eq!(pow10_u128(9), 1_000_000_000);
    assert_eq!(pow10_u128(38), 10u128.pow(38));
}

#[test]
fn collateral_value_formula() {
    assert_eq!(collateral_value_of(1_000_000_000, 150_000_000, 9), 150_000_000);
    assert_eq!(collateral_value_of(999_999_999, 150_000_000, 9), 149_999_999);
    assert_eq!(collateral_value_of(u64::MAX, u64::MAX, 0), (u64::MAX as u128) * (u64::MAX as u128));
    assert_eq!(collateral_value_of(u64::MAX, u64::MAX, 39), 0);
}

#[test]
fn required_value_formula() {
    assert_eq!(required_value_of(500_000_000, 150), 750_000_000);
    assert_eq!(required_value_of(1, 150), 1);
    assert_eq!(required_value_of(u64::MAX, u64::MAX), (u64::MAX as u128) * (u64::MAX as u128) / 100);
}

#[test]
fn seize_amount_formula() {
    assert_eq!(seize_amount_of(500_000_000, 10, 150_000_000, 9), Some(3_666_666_666));
    assert_eq!(seize_amount_of(1, 0, 0, 9), None);
    assert_eq!(seize_amount_of(0, 0, 7, 200), Some(0));
    assert_eq!(seize_amount_of(1, 0, 7, 39), None);
    assert_eq!(seize_amount_of(u64::MAX, u64::MAX, 1, 0), None);
}

#[test]
fn price_normalization() {
    assert_eq!(normalize_price(15_000_000_000, -8), Ok(150_000_000));
    assert_eq!(normalize_price(150, 0), Ok(150_000_000));
    assert_eq!(normalize_price(7, -30), Ok(0));
    assert_eq!(normalize_price(1, 13), Ok(10u64.pow(19)));
    assert_eq!(normalize_price(2, 13), Err(CustomErrorCode::MathOverflow));
    assert_eq!(normalize_price(0, i32::MAX), Ok(0));
    assert_eq!(normalize_price(u64::MAX, i32::MIN), Ok(0));
}

#[test]
fn fresh_price_is_accepted() {
    assert_eq!(get_price(quote(15_000_000_000, -8, NOW - 60), NOW), Ok(150_000_000));
    assert_eq!(get_price(quote(15_000_000_000, -8, NOW + 60), NOW), Ok(150_000_000));
}

#[test]
fn stale_price_is_refused() {
    assert_eq!(get_price(quote(15_000_000_000, -8, NOW - 61), NOW), Err(CustomErrorCode::OracleStale));
    assert_eq!(get_price(quote(15_000_000_000, -8, NOW + 61), NOW), Err(CustomErrorCode::OracleStale));
    assert_eq!(get_price(quote(1, 0, i64::MIN), i64::MAX), Err(CustomErrorCode::OracleStale));
}

#[test]
fn unreadable_or_negative_price_is_refused() {
    assert_eq!(get_price(None, NOW), Err(CustomErrorCode::OracleError));
    assert_eq!(get_price(quote(-5, -8, NOW), NOW), Err(CustomErrorCode::OracleInvalid));
    assert_eq!(get_price(quote(i64::MAX, 6, NOW), NOW), Err(CustomErrorCode::MathOverflow));
}

#[test]
fn ratio_cover_formula() {
    assert!(covers_ratio(150, 100, 150));
    assert!(!covers_ratio(149, 100, 150));
    assert!(!covers_ratio(1, 1, 150));
    assert!(covers_ratio(2, 1, 150));
    assert!(covers_ratio(0, 0, 150));
    assert!(!covers_ratio(0, u64::MAX, u64::MAX));
}
