use solana_rpc_client::utils::{decimal_string, format_sol_amount, signed_decimal_string};

#[test]
fn utils_test_format_sol_amount() {
    assert_eq!(format_sol_amount(1_000_000_000), "1.000000000 SOL");
    assert_eq!(format_sol_amount(1_500_000_000), "1.500000000 SOL");
}

#[test]
fn mod_test_format_sol_amount() {
    assert_eq!(format_sol_amount(1_000_000_000), "1.000000000 SOL");
    assert_eq!(format_sol_amount(1_500_000_000), "1.500000000 SOL");
}

#[test]
fn format_sol_amount_small_negative_and_extremes() {
    assert_eq!(format_sol_amount(0), "0.000000000 SOL");
    assert_eq!(format_sol_amount(5), "0.000000005 SOL");
    assert_eq!(format_sol_amount(-5), "-0.000000005 SOL");
    assert_eq!(format_sol_amount(-2_250_000_001), "-2.250000001 SOL");
    assert_eq!(format_sol_amount(i64::MAX), "9223372036.854775807 SOL");
    assert_eq!(format_sol_amount(i64::MIN), "-9223372036.854775808 SOL");
}

#[test]
fn decimal_text() {
    assert_eq!(decimal_string(0), "0");
    assert_eq!(decimal_string(42), "42");
    assert_eq!(decimal_string(u64::MAX), "18446744073709551615");
    assert_eq!(signed_decimal_string(-32600), "-32600");
    assert_eq!(signed_decimal_string(i64::MIN), "-9223372036854775808");
}
