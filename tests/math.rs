use investor_fee_distributor::error::ErrorCode;
use investor_fee_distributor::math::{apply_bps, calculate_f_locked_bps, calculate_pro_rata_share};

#[test]
fn test_pro_rata_share() {
    // 100 total, weight 30/100 = 30
    assert_eq!(calculate_pro_rata_share(100, 30, 100).unwrap(), 30);

    // Floor division: 100 * 33 / 100 = 33 (not 33.33)
    assert_eq!(calculate_pro_rata_share(100, 33, 100).unwrap(), 33);

    // Zero weight
    assert_eq!(calculate_pro_rata_share(100, 0, 100).unwrap(), 0);

    // Zero total weight
    assert_eq!(calculate_pro_rata_share(100, 50, 0).unwrap(), 0);
}

#[test]
fn test_apply_bps() {
    // 70% of 1000 = 700
    assert_eq!(apply_bps(1000, 7000).unwrap(), 700);

    // 100% of 1000 = 1000
    assert_eq!(apply_bps(1000, 10000).unwrap(), 1000);

    // 0% of 1000 = 0
    assert_eq!(apply_bps(1000, 0).unwrap(), 0);

    // Floor: 33.33% of 100 = 33 (not 33.33)
    assert_eq!(apply_bps(100, 3333).unwrap(), 33);
}

#[test]
fn test_f_locked_bps() {
    // 700 locked out of 1000 total = 7000 bps (70%)
    assert_eq!(calculate_f_locked_bps(700, 1000).unwrap(), 7000);

    // All locked = 10000 bps (100%)
    assert_eq!(calculate_f_locked_bps(1000, 1000).unwrap(), 10000);

    // None locked = 0 bps
    assert_eq!(calculate_f_locked_bps(0, 1000).unwrap(), 0);

    // Half locked = 5000 bps (50%)
    assert_eq!(calculate_f_locked_bps(500, 1000).unwrap(), 5000);
}

#[test]
fn apply_bps_rounds_down() {
    assert_eq!(apply_bps(1000, 3333), Ok(333));
    assert_eq!(apply_bps(1000, 10000), Ok(1000));
    assert_eq!(apply_bps(9999, 1), Ok(0));
}

#[test]
fn apply_bps_zero_is_zero_for_any_amount() {
    assert_eq!(apply_bps(0, 0), Ok(0));
    assert_eq!(apply_bps(12345, 0), Ok(0));
    assert_eq!(apply_bps(u64::MAX, 0), Ok(0));
}

#[test]
fn apply_bps_overflow_is_an_error() {
    assert_eq!(apply_bps(u64::MAX, 10000), Ok(u64::MAX));
    assert_eq!(apply_bps(u64::MAX, 10001), Err(ErrorCode::ArithmeticOverflow));
}

#[test]
fn pro_rata_zero_total_weight_is_zero() {
    assert_eq!(calculate_pro_rata_share(100, 33, 100), Ok(33));
    assert_eq!(calculate_pro_rata_share(u64::MAX, u64::MAX, 0), Ok(0));
    assert_eq!(calculate_pro_rata_share(0, 7, 0), Ok(0));
}

#[test]
fn pro_rata_uses_full_precision_and_rejects_overflow() {
    // The product exceeds u64 but the quotient fits.
    assert_eq!(calculate_pro_rata_share(u64::MAX, 3, 4), Ok(13835058055282163711));
    assert_eq!(calculate_pro_rata_share(u64::MAX, 2, 1), Err(ErrorCode::ArithmeticOverflow));
}

#[test]
fn f_locked_bps_rejects_zero_y0_and_overflow() {
    assert_eq!(calculate_f_locked_bps(700, 0), Err(ErrorCode::InvalidY0Amount));
    assert_eq!(calculate_f_locked_bps(333, 1000), Ok(3330));
    assert_eq!(calculate_f_locked_bps(2000, 1000), Ok(20000));
    assert_eq!(calculate_f_locked_bps(u64::MAX, 1), Err(ErrorCode::ArithmeticOverflow));
}
