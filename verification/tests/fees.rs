use lumentix::fees::{calculate_platform_fee, BPS_DENOMINATOR};
use lumentix::platform::MAX_PLATFORM_FEE_BPS;

#[test]
fn fee_of_250_bps_on_1000_is_25() {
    assert_eq!(calculate_platform_fee(1000, 250), 25);
}

#[test]
fn fee_of_zero_bps_is_zero() {
    assert_eq!(calculate_platform_fee(1000, 0), 0);
    assert_eq!(calculate_platform_fee(i128::MAX, 0), 0);
    assert_eq!(calculate_platform_fee(0, 0), 0);
}

#[test]
fn fee_of_the_whole_is_the_amount() {
    assert_eq!(calculate_platform_fee(1000, 10000), 1000);
    assert_eq!(calculate_platform_fee(1, 10000), 1);
    assert_eq!(calculate_platform_fee(i128::MAX, 10000), i128::MAX);
}

#[test]
fn fee_is_rounded_down() {
    // 1 bps of 9999 is 0.9999 units.
    assert_eq!(calculate_platform_fee(9999, 1), 0);
    assert_eq!(calculate_platform_fee(10000, 1), 1);
    assert_eq!(calculate_platform_fee(19999, 1), 1);
    // 333 bps of 1000 is 33.3 units.
    assert_eq!(calculate_platform_fee(1000, 333), 33);
    // 9999 bps of 1 is 0.9999 units.
    assert_eq!(calculate_platform_fee(1, 9999), 0);
    // 5% of 100, 200 and 300.
    assert_eq!(calculate_platform_fee(100, 500), 5);
    assert_eq!(calculate_platform_fee(200, 500), 10);
    assert_eq!(calculate_platform_fee(300, 500), 15);
}

#[test]
fn fee_of_a_huge_amount_does_not_overflow() {
    // The product of amount and basis points does not fit in 128 bits here;
    // the fee does.
    let amount = i128::MAX;
    let fee = calculate_platform_fee(amount, 2500);
    assert_eq!(fee, 42535295865117307932921825928971026431);
    assert_eq!(calculate_platform_fee(i128::MAX - 7, 9999), 170124169342123184808514134985512517309);
}

#[test]
fn fee_matches_the_formula_on_a_grid() {
    let amounts: [i128; 8] = [0, 1, 7, 99, 100, 9999, 10001, 123_456_789];
    let rates: [u32; 7] = [0, 1, 25, 250, 500, 9999, 10000];
    for amount in amounts {
        for rate in rates {
            let expected = amount * (rate as i128) / 10000;
            assert_eq!(calculate_platform_fee(amount, rate), expected);
        }
    }
}

#[test]
fn basis_point_constants() {
    assert_eq!(BPS_DENOMINATOR, 10000);
    assert_eq!(MAX_PLATFORM_FEE_BPS, 10000);
}
