use loan::tax::{tax_due, BASIS_POINTS};
use loan::text::{collateral_id, decimal_string};
use loan::ContractError;

#[test]
fn tax_of_one_day_at_150_basis_points() {
    assert_eq!(tax_due(1_000_000, 86_400, 150), Ok(1_296_000_000));
}

#[test]
fn tax_is_zero_when_no_time_has_passed() {
    assert_eq!(tax_due(1_000_000, 0, 150), Ok(0));
    assert_eq!(tax_due(u128::MAX, 0, u64::MAX), Ok(0));
    assert_eq!(tax_due(0, 0, 0), Ok(0));
}

#[test]
fn tax_is_zero_for_zero_valuation_or_zero_rate() {
    assert_eq!(tax_due(0, 86_400, 150), Ok(0));
    assert_eq!(tax_due(1_000_000, 86_400, 0), Ok(0));
    assert_eq!(tax_due(u128::MAX, u64::MAX, 0), Ok(0));
}

#[test]
fn tax_is_rounded_down() {
    assert_eq!(tax_due(1, 1, 9_999), Ok(0));
    assert_eq!(tax_due(1, 1, 10_000), Ok(1));
    assert_eq!(tax_due(3, 1, 5_000), Ok(1));
    assert_eq!(tax_due(7, 3, 1_000), Ok(2));
    assert_eq!(tax_due(19_999, 1, 1), Ok(1));
}

#[test]
fn tax_divides_by_ten_thousand() {
    assert_eq!(BASIS_POINTS, 10_000);
    assert_eq!(tax_due(10_000, 1, 1), Ok(1));
    assert_eq!(tax_due(1, 10_000, 1), Ok(1));
    assert_eq!(tax_due(1, 1, 10_000), Ok(1));
}

#[test]
fn tax_does_not_fall_as_time_passes() {
    let mut last = 0u128;
    for elapsed in [0u64, 1, 2, 59, 60, 61, 3_600, 86_399, 86_400, 86_401, 31_536_000] {
        let tax = tax_due(1_000_000, elapsed, 150).unwrap();
        assert!(tax >= last, "tax fell at {} seconds", elapsed);
        last = tax;
    }
    assert_eq!(last, 1_000_000u128 * 31_536_000 * 150 / 10_000);
}

#[test]
fn tax_reports_overflow_instead_of_wrapping() {
    assert_eq!(tax_due(u128::MAX, 2, 1), Err(ContractError::ArithmeticOverflow));
    assert_eq!(tax_due(u128::MAX, 1, 2), Err(ContractError::ArithmeticOverflow));
    assert_eq!(tax_due(u128::MAX / 2 + 1, 2, 1), Err(ContractError::ArithmeticOverflow));
    assert_eq!(
        tax_due(1u128 << 64, u64::MAX, u64::MAX),
        Err(ContractError::ArithmeticOverflow)
    );
}

#[test]
fn tax_at_the_edge_of_128_bits() {
    assert_eq!(tax_due(u128::MAX, 1, 1), Ok(u128::MAX / 10_000));
    assert_eq!(tax_due(u128::MAX / 2, 2, 1), Ok((u128::MAX - 1) / 10_000));
    assert_eq!(
        tax_due(u64::MAX as u128, u64::MAX, 1),
        Ok((u64::MAX as u128) * (u64::MAX as u128) / 10_000)
    );
}

#[test]
fn an_earlier_time_fits_where_a_later_one_does() {
    let valuation = u128::MAX / 1_000;
    assert!(tax_due(valuation, 1_000, 1).is_ok());
    assert!(tax_due(valuation, 999, 1).is_ok());
    assert_eq!(tax_due(valuation, 1_001, 1), Err(ContractError::ArithmeticOverflow));
}

#[test]
fn decimal_string_of_small_numbers() {
    assert_eq!(decimal_string(0), "0");
    assert_eq!(decimal_string(7), "7");
    assert_eq!(decimal_string(9), "9");
    assert_eq!(decimal_string(10), "10");
    assert_eq!(decimal_string(1_296_000_000), "1296000000");
    assert_eq!(decimal_string(1_234_567_890), "1234567890");
}

#[test]
fn decimal_string_of_the_largest_number() {
    assert_eq!(decimal_string(u128::MAX), "340282366920938463463374607431768211455");
    assert_eq!(decimal_string(u64::MAX as u128), "18446744073709551615");
}

#[test]
fn decimal_string_agrees_with_the_standard_library() {
    for n in [0u128, 1, 99, 100, 101, 1_000_000, 99_999_999_999, 1u128 << 100] {
        assert_eq!(decimal_string(n), n.to_string());
    }
}

#[test]
fn collateral_id_is_height_hyphen_borrower() {
    assert_eq!(collateral_id(12_345, &"alice".to_string()), "12345-alice");
    assert_eq!(collateral_id(0, &"bob".to_string()), "0-bob");
    assert_eq!(collateral_id(u64::MAX, &String::new()), "18446744073709551615-");
}

#[test]
fn collateral_ids_differ_by_height_or_borrower() {
    let alice = "alice".to_string();
    let bob = "bob".to_string();
    assert_ne!(collateral_id(1, &alice), collateral_id(2, &alice));
    assert_ne!(collateral_id(1, &alice), collateral_id(1, &bob));
    assert_eq!(collateral_id(1, &alice), collateral_id(1, &alice));
}

#[test]
fn error_messages() {
    assert_eq!(ContractError::InvalidAmount.message(), "Invalid amount: deposit must be positive");
    assert_eq!(ContractError::NotFound.message(), "Collateral not found");
    assert_eq!(ContractError::InsufficientFunds.message(), "Insufficient funds to pay tax");
    assert_eq!(ContractError::ArithmeticOverflow.message(), "Arithmetic overflow");
    assert_eq!(ContractError::TransferFailed.message(), "Transfer failed");
}
