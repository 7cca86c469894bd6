use token_bridge_relayer::fee::token_fee;
use token_bridge_relayer::foreign_contract::ForeignContract;
use token_bridge_relayer::registered_token::RegisteredToken;
use token_bridge_relayer::relayer_fee::RelayerFee;

#[test]
fn foreign_contract_test_checked_token_fee() {
    // Test variables.
    let relayer_fee_precision: u32 = 100000000;
    let swap_rate: u64 = 6900000000;

    // Create a test foreign contract record.
    let mut relayer_fee = ForeignContract {
        chain: 2,         // target chain
        address: [0; 32], // target address
        token_bridge_foreign_endpoint: [9; 32],
        fee: 42000000000, // $420.00
    };

    // Calculate the token fee for 10 decimals.
    let expected_token_fee = 60869565217;
    let token_fee = relayer_fee.checked_token_fee(10, swap_rate, relayer_fee_precision);
    assert_eq!(token_fee.unwrap(), expected_token_fee);

    // Calculate the token fee for 9 decimals.
    let expected_token_fee = 6086956521;
    let token_fee = relayer_fee.checked_token_fee(9, swap_rate, relayer_fee_precision);
    assert_eq!(token_fee.unwrap(), expected_token_fee);

    // Calculate the token fee for 8 decimals.
    let expected_token_fee = 608695652;
    let token_fee = relayer_fee.checked_token_fee(8, swap_rate, relayer_fee_precision);
    assert_eq!(token_fee.unwrap(), expected_token_fee);

    // Calculate the token fee with an increased swap rate.
    let swap_rate: u64 = 100000000000000; // $100000.00
    let expected_token_fee = 42000;
    let token_fee = relayer_fee.checked_token_fee(8, swap_rate, relayer_fee_precision);
    assert_eq!(token_fee.unwrap(), expected_token_fee);

    // Calculate the token fee with a decreased swap rate.
    let swap_rate: u64 = 1000000; // $0.01
    let expected_token_fee = 4200000000000;
    let token_fee = relayer_fee.checked_token_fee(8, swap_rate, relayer_fee_precision);
    assert_eq!(token_fee.unwrap(), expected_token_fee);

    // Calculate the token fee when the USD fee is zero.
    relayer_fee.fee = 0;
    let expected_token_fee = 0;
    let token_fee = relayer_fee.checked_token_fee(8, swap_rate, relayer_fee_precision);
    assert_eq!(token_fee.unwrap(), expected_token_fee);

    // Cause an overflow.
    relayer_fee.fee = u64::MAX;
    let swap_rate = 1;
    let relayer_fee_precision = 1;
    let token_fee = relayer_fee.checked_token_fee(8, swap_rate, relayer_fee_precision);
    assert!(token_fee.is_none());
}

#[test]
fn relayer_fee_test_checked_token_fee() {
    // Test variables.
    let relayer_fee_precision: u32 = 100000000;
    let swap_rate: u64 = 6900000000;

    // Create test RelayerFee.
    let mut relayer_fee = RelayerFee {
        chain: 2,         // target chain
        fee: 42000000000, // $420.00
    };

    // Calculate the token fee for 10 decimals.
    let expected_token_fee = 60869565217;
    let token_fee = relayer_fee.checked_token_fee(10, swap_rate, relayer_fee_precision);
    assert_eq!(token_fee.unwrap(), expected_token_fee);

    // Calculate the token fee for 9 decimals.
    let expected_token_fee = 6086956521;
    let token_fee = relayer_fee.checked_token_fee(9, swap_rate, relayer_fee_precision);
    assert_eq!(token_fee.unwrap(), expected_token_fee);

    // Calculate the token fee for 8 decimals.
    let expected_token_fee = 608695652;
    let token_fee = relayer_fee.checked_token_fee(8, swap_rate, relayer_fee_precision);
    assert_eq!(token_fee.unwrap(), expected_token_fee);

    // Calculate the token fee with an increased swap rate.
    let swap_rate: u64 = 100000000000000; // $100000.00
    let expected_token_fee = 42000;
    let token_fee = relayer_fee.checked_token_fee(8, swap_rate, relayer_fee_precision);
    assert_eq!(token_fee.unwrap(), expected_token_fee);

    // Calculate the token fee with a decreased swap rate.
    let swap_rate: u64 = 1000000; // $0.01
    let expected_token_fee = 4200000000000;
    let token_fee = relayer_fee.checked_token_fee(8, swap_rate, relayer_fee_precision);
    assert_eq!(token_fee.unwrap(), expected_token_fee);

    // Calculate the token fee when the USD fee is zero.
    relayer_fee.fee = 0;
    let expected_token_fee = 0;
    let token_fee = relayer_fee.checked_token_fee(8, swap_rate, relayer_fee_precision);
    assert_eq!(token_fee.unwrap(), expected_token_fee);

    // Cause an overflow.
    relayer_fee.fee = u64::MAX;
    let swap_rate = 1;
    let relayer_fee_precision = 1;
    let token_fee = relayer_fee.checked_token_fee(8, swap_rate, relayer_fee_precision);
    assert!(token_fee.is_none());
}

#[test]
fn test_native_swap_rate() {
    // Create test RegisteredToken struct.
    let mut registered_token = RegisteredToken {
        swap_rate: 1000000000,
        max_native_swap_amount: 1000000000,
    };

    // Calculate the native swap rate.
    let expected_native_swap_rate: u64 = 42000000000;
    let native_swap_rate = registered_token.native_swap_rate(
        420000000000, // native currency swap rate
    );
    assert_eq!(expected_native_swap_rate, native_swap_rate.unwrap());

    // Increase the swap rate.
    registered_token.swap_rate = 6900000000;
    let expected_native_swap_rate: u64 = 6086956521;
    let native_swap_rate = registered_token.native_swap_rate(420000000000);
    assert_eq!(expected_native_swap_rate, native_swap_rate.unwrap());

    // Set the native currency swap rate to 1, which should cause the
    // function to return None.
    let native_swap_rate = registered_token.native_swap_rate(1);
    assert_eq!(None, native_swap_rate);

    // Set the native currency swap rate to a very large number and the
    // token swap rate to a very small number. This should cause an overflow
    // and the function should return None.
    registered_token.swap_rate = 1;
    let native_swap_rate = registered_token.native_swap_rate(u64::MAX);
    assert_eq!(None, native_swap_rate);
}

#[test]
fn test_calculate_max_swap_amount_in() {
    // Test variables.
    let native_swap_rate: u64 = 42000000000;

    // Create test RegisteredToken struct.
    let mut registered_token = RegisteredToken {
        swap_rate: 1000000000,              // $10.00
        max_native_swap_amount: 1000000000, // 1 native unit
    };

    // Calculate the max swap amount in for decimals 10.
    let expected_max_swap_amount_in: u64 = 4200000000000;
    let max_swap_amount_in = registered_token.calculate_max_swap_amount_in(10, native_swap_rate);
    assert_eq!(expected_max_swap_amount_in, max_swap_amount_in.unwrap());

    // Calculate the max swap amount in for decimals 9.
    let expected_max_swap_amount_in: u64 = 420000000000;
    let max_swap_amount_in = registered_token.calculate_max_swap_amount_in(9, native_swap_rate);
    assert_eq!(expected_max_swap_amount_in, max_swap_amount_in.unwrap());

    // Calculate the max swap amount in for decimals 8.
    let expected_max_swap_amount_in: u64 = 42000000000;
    let max_swap_amount_in = registered_token.calculate_max_swap_amount_in(8, native_swap_rate);
    assert_eq!(expected_max_swap_amount_in, max_swap_amount_in.unwrap());

    // Increase the native swap rate.
    let expected_max_swap_amount_in: u64 = 6900000000000000;
    let max_swap_amount_in = registered_token.calculate_max_swap_amount_in(9, 690000000000000);
    assert_eq!(expected_max_swap_amount_in, max_swap_amount_in.unwrap());

    // Decrease the max native swap amount.
    registered_token.max_native_swap_amount = 1000000;
    let expected_max_swap_amount_in: u64 = 420000000;
    let max_swap_amount_in = registered_token.calculate_max_swap_amount_in(9, native_swap_rate);
    assert_eq!(expected_max_swap_amount_in, max_swap_amount_in.unwrap());
}

#[test]
fn test_calculate_native_swap_amounts() {
    // Test variables.
    let sol_swap_rate: u64 = 42000000000; // $42.00

    // Create test RegisteredToken struct.
    let mut registered_token = RegisteredToken {
        swap_rate: 1000000000,               // $10.00
        max_native_swap_amount: 10000000000, // 10 native units
    };

    // Calculate the native swap amounts for decimals 10.
    let to_native_token_amount: u64 = 10000000000; // 1 token
    let expected_swap_amount = 23809523;
    let native_swap_amounts =
        registered_token.calculate_native_swap_amounts(10, sol_swap_rate, to_native_token_amount);
    assert_eq!(to_native_token_amount, native_swap_amounts.unwrap().0);
    assert_eq!(expected_swap_amount, native_swap_amounts.unwrap().1);

    // Calculate the native swap amounts for decimals 9.
    let to_native_token_amount: u64 = 10000000000;
    let expected_swap_amount = 238095238;
    let native_swap_amounts =
        registered_token.calculate_native_swap_amounts(9, sol_swap_rate, to_native_token_amount);
    assert_eq!(to_native_token_amount, native_swap_amounts.unwrap().0);
    assert_eq!(expected_swap_amount, native_swap_amounts.unwrap().1);

    // Calculate the native swap amounts for decimals 8.
    let to_native_token_amount: u64 = 10000000000;
    let expected_swap_amount = 2380952380;
    let native_swap_amounts =
        registered_token.calculate_native_swap_amounts(8, sol_swap_rate, to_native_token_amount);
    assert_eq!(to_native_token_amount, native_swap_amounts.unwrap().0);
    assert_eq!(expected_swap_amount, native_swap_amounts.unwrap().1);

    // Calculate the native swap amounts when the to native token amount
    // is zero. Both return values should be zero.
    let to_native_token_amount: u64 = 0;
    let expected_swap_amount = 0;
    let native_swap_amounts =
        registered_token.calculate_native_swap_amounts(10, sol_swap_rate, to_native_token_amount);
    assert_eq!(to_native_token_amount, native_swap_amounts.unwrap().0);
    assert_eq!(expected_swap_amount, native_swap_amounts.unwrap().1);

    // Set the max native swap amount to zero. Both return values should be zero.
    registered_token.max_native_swap_amount = 0;
    let expected_swap_amount_out = 0;
    let expected_swap_amount_in = 0;
    let native_swap_amounts = registered_token.calculate_native_swap_amounts(
        10,
        sol_swap_rate,
        10000000000, // to native token amount is nonzero
    );
    assert_eq!(expected_swap_amount_in, native_swap_amounts.unwrap().0);
    assert_eq!(expected_swap_amount_out, native_swap_amounts.unwrap().1);

    // Set the to native token amount to a value larger than the max native
    // swap amount. The to native token amount should be overridden to the
    // max native swap amount.
    registered_token.max_native_swap_amount = 1000000000; // 1 native unit
    let to_native_token_amount = 6900000000000; // larger than max native swap amount
    let expected_swap_amount_out = 1000000000;
    let expected_swap_amount_in = 420000000000; // 42 tokens
    let native_swap_amounts =
        registered_token.calculate_native_swap_amounts(10, sol_swap_rate, to_native_token_amount);
    assert_eq!(expected_swap_amount_in, native_swap_amounts.unwrap().0);
    assert_eq!(expected_swap_amount_out, native_swap_amounts.unwrap().1);

    // Set the to_native_token_amount to a very small number. The
    // resulting swap amounts should be zero due to the division
    // rounding toward zero.
    let to_native_token_amount = 1;
    let expected_swap_amount_out = 0;
    let expected_swap_amount_in = 0;
    let native_swap_amounts =
        registered_token.calculate_native_swap_amounts(10, sol_swap_rate, to_native_token_amount);
    assert_eq!(expected_swap_amount_in, native_swap_amounts.unwrap().0);
    assert_eq!(expected_swap_amount_out, native_swap_amounts.unwrap().1);

    // Cause an overflow for a token with 10 decimals.
    registered_token.max_native_swap_amount = u64::MAX;
    registered_token.swap_rate = 100000000; // $1.00
    let sol_swap_rate = 100000000; // $1.00
    let native_swap_amounts =
        registered_token.calculate_native_swap_amounts(10, sol_swap_rate, u64::MAX);
    assert_eq!(None, native_swap_amounts);

    // Cause an overflow for a token with 8 decimals.
    let sol_swap_rate = u64::MAX;
    let native_swap_amounts =
        registered_token.calculate_native_swap_amounts(8, sol_swap_rate, u64::MAX);
    assert_eq!(None, native_swap_amounts);
}

#[test]
fn token_fee_reference_vectors() {
    // The engine parameterized by both precisions matches the reference
    // computation fee * 10^decimals * swap_precision / (rate * fee_precision).
    assert_eq!(
        token_fee(42000000000, 10, 6900000000, 100000000, 100000000),
        Some(60869565217)
    );
    assert_eq!(
        token_fee(42000000000, 9, 6900000000, 100000000, 100000000),
        Some(6086956521)
    );
    assert_eq!(
        token_fee(42000000000, 8, 6900000000, 100000000, 100000000),
        Some(608695652)
    );
}

#[test]
fn token_fee_overflow_and_zero_divisors() {
    // Overflow of the 128-bit numerator.
    assert_eq!(token_fee(u64::MAX, 38, u64::MAX, 1, u32::MAX), None);
    // The overflow vector: a maximal fee against minimal rate and precision.
    assert_eq!(token_fee(u64::MAX, 8, 1, 1, 100000000), None);
    // A zero swap rate or a zero precision must yield None, not a panic.
    assert_eq!(token_fee(1000, 8, 0, 100000000, 100000000), None);
    assert_eq!(token_fee(1000, 8, 6900000000, 0, 100000000), None);
    // A result beyond 64 bits is refused.
    assert_eq!(token_fee(u64::MAX, 8, 1, 1, 100), None);
}
