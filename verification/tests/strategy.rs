use raydium_amm_monitor::price::{
    checked_pow10, derive_price, min_out_with_slippage, quote_limit_with_slippage,
    ratio_at_least, wide_mul, wrap_amount, MILLIONTHS, PERCENT,
};
use raydium_amm_monitor::strategy::BotSettings;

#[test]
fn default_strategy() {
    let s = BotSettings::new("u".to_string(), "n".to_string(), "pool".to_string(), 42);
    assert_eq!(s.id, None);
    assert_eq!(s.user_id, "u");
    assert_eq!(s.name, "n");
    assert_eq!(s.pool_address, "pool");
    assert_eq!(s.buy_sol_amount, 1_000_000);
    assert_eq!(s.entry_percent, 100);
    assert_eq!(s.entry_slippage, 5 * PERCENT);
    assert_eq!(s.exit_slippage, 100 * PERCENT);
    assert_eq!(s.stop_loss, 100);
    assert_eq!(s.take_profit, 100);
    assert_eq!(s.auto_exit, 3600);
    assert_eq!(s.confirm_service, "JITO");
    assert_eq!(s.cu, 300_000);
    assert_eq!(s.priority_fee_micro_lamport, 20_000);
    assert_eq!(s.third_party_fee, 100_000);
    assert_eq!((s.created_at, s.updated_at), (42, 42));
    let d = BotSettings::create_default_bot("u".to_string(), 7);
    assert_eq!(d.name, "My First Bot");
    assert_eq!(d.pool_address, "");
    assert_eq!(d.auto_exit, 3600);
}

#[test]
fn updates_replace_what_is_given() {
    let mut s = BotSettings::new("u".to_string(), "n".to_string(), "pool".to_string(), 1);
    s.update_trading_params(
        Some("other".to_string()),
        None,
        Some(20_000),
        None,
        Some(70_000),
        None,
        Some(150_000),
        Some(0),
        2,
    );
    assert_eq!(s.pool_address, "other");
    assert_eq!(s.buy_sol_amount, 1_000_000);
    assert_eq!(s.entry_percent, 20_000);
    assert_eq!(s.entry_slippage, 50_000);
    assert_eq!(s.exit_slippage, 70_000);
    assert_eq!(s.stop_loss, 100);
    assert_eq!(s.take_profit, 150_000);
    assert_eq!(s.auto_exit, 0);
    assert_eq!((s.created_at, s.updated_at), (1, 2));
    s.update_mev_config(Some("NOZOMI".to_string()), None, Some(5), Some(9), 3);
    assert_eq!(s.confirm_service, "NOZOMI");
    assert_eq!(s.cu, 300_000);
    assert_eq!(s.priority_fee_micro_lamport, 5);
    assert_eq!(s.third_party_fee, 9);
    assert_eq!(s.updated_at, 3);
    s.update_mev_config(None, Some(1), None, None, 4);
    assert_eq!(s.confirm_service, "NOZOMI");
    assert_eq!(s.cu, 1);
}

#[test]
fn price_of_a_pool() {
    let unit: u128 = 1_000_000_000_000_000_000;
    assert_eq!(derive_price(100_000_000_000_000, 1_000_000_000, 6), Some(100 * unit));
    assert_eq!(derive_price(98_500_000_000_000, 1_000_000_000, 6), Some(98 * unit + unit / 2));
    assert_eq!(derive_price(1_000_000_000, 1_000_000_000, 9), Some(unit));
    assert_eq!(derive_price(1, 3, 0), Some(333_333_333));
    assert_eq!(derive_price(30_000_852_951, 517_688_030_129_106, 6), Some(57_951_606_382));
    assert_eq!(derive_price(5, 0, 6), Some(0));
    assert_eq!(derive_price(0, 5, 6), Some(0));
    assert_eq!(derive_price(0, 5, 255), Some(0));
    assert_eq!(derive_price(u64::MAX, 1, 10), Some(u64::MAX as u128 * 10u128.pow(19)));
    assert_eq!(derive_price(u64::MAX, 1, 11), None);
    assert_eq!(derive_price(1, u64::MAX, 29), Some(10u128.pow(38) / u64::MAX as u128));
    assert_eq!(derive_price(1, 1, 30), None);
}

#[test]
fn powers_of_ten() {
    assert_eq!(checked_pow10(0), Some(1));
    assert_eq!(checked_pow10(18), Some(1_000_000_000_000_000_000));
    assert_eq!(checked_pow10(38), Some(10u128.pow(38)));
    assert_eq!(checked_pow10(39), None);
    assert_eq!(checked_pow10(u32::MAX), None);
}

#[test]
fn ratios_are_compared_exactly() {
    assert!(ratio_at_least(1, 100, 10_000));
    assert!(!ratio_at_least(1, 100, 10_001));
    assert!(ratio_at_least(0, 100, 0));
    assert!(!ratio_at_least(0, 100, 1));
    assert!(ratio_at_least(5, 0, u64::MAX));
    assert!(ratio_at_least(u128::MAX, u128::MAX, MILLIONTHS));
    assert!(!ratio_at_least(u128::MAX, u128::MAX, MILLIONTHS + 1));
    assert!(!ratio_at_least(u128::MAX - 1, u128::MAX, MILLIONTHS));
    assert!(ratio_at_least(u128::MAX / 2 + 1, u128::MAX, 500_000));
    assert!(!ratio_at_least(u128::MAX / 2, u128::MAX, 500_000));
    let (high, low) = wide_mul(u128::MAX, u64::MAX);
    assert_eq!(high, u128::MAX - u64::MAX as u128 - 1);
    assert_eq!(low, 1);
    assert_eq!(wide_mul(7, 6), (0, 42));
    assert_eq!(wide_mul(1 << 64, 3), (3, 0));
}

#[test]
fn slippage_limits() {
    assert_eq!(min_out_with_slippage(1_000_000, 50_000), 947_150);
    assert_eq!(min_out_with_slippage(1_000_000, 0), 997_000);
    assert_eq!(min_out_with_slippage(1_000_000, 1_000_000), 0);
    assert_eq!(min_out_with_slippage(1_000_000, 10_000_000), 0);
    assert_eq!(min_out_with_slippage(u64::MAX, 0), (u64::MAX as u128 * 997 / 1000) as u64);
    assert_eq!(min_out_with_slippage(0, 7), 0);
    assert_eq!(quote_limit_with_slippage(1_000_000, 50_000, true), 1_052_625);
    assert_eq!(quote_limit_with_slippage(1_000_000, 50_000, false), 952_375);
    assert_eq!(quote_limit_with_slippage(1_000_000, 0, true), 1_002_500);
    assert_eq!(quote_limit_with_slippage(1_000_000, 1_000_000, false), 0);
    assert_eq!(quote_limit_with_slippage(1_000_000, 2_000_000, false), 0);
    assert_eq!(quote_limit_with_slippage(u64::MAX, 0, true), u64::MAX);
    assert_eq!(quote_limit_with_slippage(u64::MAX, u64::MAX, true), u64::MAX);
    assert_eq!(quote_limit_with_slippage(1, u64::MAX, true), 18_492_860_933_894);
    assert_eq!(wrap_amount(10_000_000), 11_000_000);
    assert_eq!(wrap_amount(9), 9);
    assert_eq!(wrap_amount(u64::MAX), u64::MAX);
    assert_eq!(wrap_amount(0), 0);
}
