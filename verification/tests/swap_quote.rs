use raydium_amm_monitor::math::{
    calculate_fee, ceil_div, get_amount_out, get_swap_quote, sol_token_quote, token_sol_quote,
    FEE_RATE, TRADE_FEE_RATE,
};

#[test]
fn test_swap_base_input_without_fees() {
    let amount_in = 693000000_u64;
    let base_reserve = 1073025605596382_u64 - 555337575467276_u64;
    let quote_reserve = 30000852951_u64 + 32182704639_u64;

    let fee = calculate_fee(amount_in, TRADE_FEE_RATE + FEE_RATE);

    let amount_less_fee = amount_in - fee;

    println!("Without Fee : {}", amount_less_fee);

    let result = get_amount_out(
        amount_less_fee as u128,
        quote_reserve as u128,
        base_reserve as u128,
    );

    println!("{}", result);

    let result1 = get_swap_quote(amount_in, base_reserve, quote_reserve);

    println!("{}", result1);

    assert_eq!(fee, 8_662_500);
    assert_eq!(amount_less_fee, 684_337_500);
    assert_eq!(result, 5_635_202_702_608);
    assert_eq!(result1 as u128, result);
}

#[test]
fn ceil_div_rounds_up() {
    assert_eq!(ceil_div(10, 1, 3), 4);
    assert_eq!(ceil_div(9, 1, 3), 3);
    assert_eq!(ceil_div(0, 7, 3), 0);
    assert_eq!(ceil_div(1, 1, 1_000_000), 1);
}

#[test]
fn ceil_div_is_exact_beyond_64_bit_products() {
    assert_eq!(ceil_div(u64::MAX, 2, 4), (u64::MAX / 2) + 1);
    assert_eq!(ceil_div(u64::MAX, u64::MAX, 1), u64::MAX);
}

#[test]
fn fee_of_the_pool() {
    assert_eq!(calculate_fee(1_000_000, 12_500), 12_500);
    assert_eq!(calculate_fee(1, 12_500), 1);
    assert_eq!(calculate_fee(0, 12_500), 0);
    assert_eq!(calculate_fee(80, 12_500), 1);
    assert_eq!(calculate_fee(81, 12_500), 2);
}

#[test]
fn amount_out_guards_the_empty_pool() {
    assert_eq!(get_amount_out(0, 0, 500), 0);
    assert_eq!(get_amount_out(100, 900, 1000), 100);
    assert_eq!(get_amount_out(100, 0, 1000), 1000);
}

#[test]
fn bonding_curve_buy_and_sell() {
    assert_eq!(sol_token_quote(1_000, 9_000, 1_000_000, true), 100_000);
    assert_eq!(sol_token_quote(1_000, 9_001, 1_000_000, false), 100_100);
    assert_eq!(sol_token_quote(0, 0, 1_000_000, true), 0);
    assert_eq!(sol_token_quote(0, 1, 1_000_000, false), 0);
    assert_eq!(sol_token_quote(1, 0, u64::MAX, true), u64::MAX);
}

#[test]
fn token_to_native_quote() {
    assert_eq!(token_sol_quote(100, 5_000, 1_100, true), 500);
    assert_eq!(token_sol_quote(100, 5_000, 900, false), 500);
    assert_eq!(token_sol_quote(100, 5_000, 100, true), 0);
    assert_eq!(token_sol_quote(100, 5_000, 50, true), 0);
}
