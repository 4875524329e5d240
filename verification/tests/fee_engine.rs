use swap_math::decimal::Decimal;
use swap_math::fees::FeeCalculator;
use swap_math::fees::Fees;
use swap_math::math::mul_div;
use swap_math::math::mul_div_imbalanced;

fn sample_fees() -> Fees {
    Fees {
        trade_fee_numerator: 25,
        trade_fee_denominator: 10000,
        admin_trade_fee_numerator: 1,
        admin_trade_fee_denominator: 1000,
        admin_withdraw_fee_numerator: 2,
        admin_withdraw_fee_denominator: 100,
        withdraw_fee_numerator: 5,
        withdraw_fee_denominator: 100,
    }
}

#[test]
fn mul_div_exact_small_case() {
    assert_eq!(mul_div(6, 7, 2), Some(21));
}

#[test]
fn mul_div_zero_divisor_is_absent() {
    assert_eq!(mul_div(0, 0, 0), None);
    assert_eq!(mul_div(6, 7, 0), None);
    assert_eq!(mul_div(u64::MAX, u64::MAX, 0), None);
    assert_eq!(mul_div_imbalanced(u64::MAX, 3, 0), None);
}

#[test]
fn mul_div_overflowing_quotient_is_absent() {
    // 2^40 * 2^40 / 1 = 2^80 does not fit in 64 bits.
    assert_eq!(mul_div(1 << 40, 1 << 40, 1), None);
    assert_eq!(mul_div_imbalanced(1 << 40, 1 << 40, 1), None);
}

#[test]
fn mul_div_widened_path_is_exact() {
    // One operand above 2^32 forces 128-bit arithmetic; the result is
    // still the exact floor(a * b / c).
    let a: u64 = (1 << 32) + 1;
    let b: u64 = 1 << 32;
    assert_eq!(mul_div(a, b, 2), Some((1 << 63) + (1 << 31)));
    assert_eq!(mul_div(u64::MAX, u64::MAX, u64::MAX), Some(u64::MAX));
}

#[test]
fn mul_div_narrow_path_boundary() {
    // Both operands exactly at the 2^32 threshold stay on the 64-bit
    // path, where the product 2^64 overflows and the result is absent.
    assert_eq!(mul_div(1 << 32, 1 << 32, 2), None);
    // Nudging one operand over the threshold widens and succeeds.
    assert_eq!(mul_div((1 << 32) + 1, 1 << 32, 1 << 32), Some((1 << 32) + 1));
}

#[test]
fn mul_div_imbalanced_thresholds() {
    // At a = 2^48 and b = 2^16 the product 2^64 overflows the narrow path.
    assert_eq!(mul_div_imbalanced(1 << 48, 1 << 16, 2), None);
    // Over either threshold the widened path gives the exact quotient.
    assert_eq!(
        mul_div_imbalanced((1 << 48) + 1, 1 << 16, 2),
        Some((1 << 63) + (1 << 15))
    );
    assert_eq!(mul_div_imbalanced(1 << 48, 1 << 17, 2), None);
    assert_eq!(mul_div_imbalanced(1 << 48, 1 << 17, 4), Some(1 << 63));
    // Under both thresholds the 64-bit path is exact.
    assert_eq!(mul_div_imbalanced(1_000_000, 25, 10_000), Some(2_500));
}

#[test]
fn admin_trade_fee_small_rate() {
    let fees = sample_fees();
    assert_eq!(fees.admin_trade_fee(1_000_000), Some(1_000));
}

#[test]
fn flat_fee_operations_exact_values() {
    let fees = sample_fees();
    assert_eq!(fees.trade_fee(1_000_000), Some(2_500));
    assert_eq!(fees.withdraw_fee(1_000_000), Some(50_000));
    assert_eq!(fees.admin_withdraw_fee(1_000_000), Some(20_000));
}

#[test]
fn fee_operations_with_zero_denominator_are_absent() {
    let mut fees = sample_fees();
    fees.trade_fee_numerator = 1;
    fees.trade_fee_denominator = 0;
    fees.admin_trade_fee_denominator = 0;
    fees.admin_withdraw_fee_denominator = 0;
    fees.withdraw_fee_denominator = 0;
    assert_eq!(fees.trade_fee(100), None);
    assert_eq!(fees.admin_trade_fee(100), None);
    assert_eq!(fees.admin_withdraw_fee(100), None);
    assert_eq!(fees.withdraw_fee(100), None);
    assert_eq!(fees.normalized_trade_fee(2, 100), None);
}

#[test]
fn normalized_trade_fee_single_coin_is_absent() {
    let fees = sample_fees();
    assert_eq!(fees.normalized_trade_fee(1, 100), None);
}

#[test]
fn normalized_trade_fee_zero_coins_is_absent() {
    let fees = sample_fees();
    assert_eq!(fees.normalized_trade_fee(0, 100), None);
}

#[test]
fn normalized_trade_fee_four_coins() {
    // adjusted = floor(25 * 4 / 12) = 8, then floor(1_000_000 * 8 / 10000) = 800.
    let fees = sample_fees();
    assert_eq!(fees.normalized_trade_fee(4, 1_000_000), Some(800));
}

#[test]
fn normalized_trade_fee_coin_count_overflow_is_absent() {
    // 4 * (n_coins - 1) is computed in the 8-bit coin-count width:
    // past 64 coins it overflows and the fee is absent.
    let fees = sample_fees();
    assert_eq!(fees.normalized_trade_fee(64, 1_000_000), Some(600));
    assert_eq!(fees.normalized_trade_fee(65, 1_000_000), None);
    assert_eq!(fees.normalized_trade_fee(u8::MAX, 1_000_000), None);
}

#[test]
fn fee_operations_are_idempotent() {
    let fees = sample_fees();
    assert_eq!(fees.trade_fee(123_456), fees.trade_fee(123_456));
    assert_eq!(fees.admin_trade_fee(123_456), fees.admin_trade_fee(123_456));
    assert_eq!(fees.withdraw_fee(123_456), fees.withdraw_fee(123_456));
    assert_eq!(
        fees.admin_withdraw_fee(123_456),
        fees.admin_withdraw_fee(123_456)
    );
    assert_eq!(
        fees.normalized_trade_fee(3, 123_456),
        fees.normalized_trade_fee(3, 123_456)
    );
    assert_eq!(mul_div(6, 7, 2), mul_div(6, 7, 2));
    assert_eq!(
        mul_div_imbalanced(1 << 50, 3, 7),
        mul_div_imbalanced(1 << 50, 3, 7)
    );
}

#[test]
fn decimal_renders_fractional_part() {
    let d = Decimal::new(1_621_449_453_837, 9);
    assert_eq!(d.to_string(), "1621.449453837");
}

#[test]
fn decimal_pads_small_magnitudes_with_zeros() {
    assert_eq!(Decimal::new(5, 2).to_string(), "0.05");
    assert_eq!(Decimal::new(5, 1).to_string(), "0.5");
    assert_eq!(Decimal::new(0, 3).to_string(), "0.000");
}

#[test]
fn decimal_with_no_fractional_digits_keeps_trailing_point() {
    assert_eq!(Decimal::new(123, 0).to_string(), "123.");
    assert_eq!(Decimal::new(0, 0).to_string(), "0.");
}

#[test]
fn decimal_renders_full_128_bit_magnitude() {
    assert_eq!(
        Decimal::new(u128::MAX, 0).to_string(),
        "340282366920938463463374607431768211455."
    );
    assert_eq!(
        Decimal::new(u128::MAX, 38).to_string(),
        "3.40282366920938463463374607431768211455"
    );
}
