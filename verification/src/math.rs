//! Pool arithmetic: fee rounding and constant-product quotes.
//!
//! All amounts are atomic units. Intermediate products are taken in 128 bits,
//! so 64-bit reserves never overflow.

use vstd::prelude::*;

verus! {

/// Trade fee rate of the constant-product pool, in millionths.
pub const TRADE_FEE_RATE: u64 = 2500u64;

/// Protocol fee rate of the constant-product pool, in millionths.
pub const FEE_RATE: u64 = 10000u64;

/// Denominator of the fee rates.
pub const FEE_RATE_DENOMINATOR_VALUE: u64 = 1_000_000u64;

/// `ceil(amount * numerator / denominator)` over the integers.
pub open spec fn spec_ceil_div(amount: int, numerator: int, denominator: int) -> int {
    (amount * numerator + denominator - 1) / denominator
}

/// The value `v` cut off at the largest `u64`.
pub open spec fn spec_clamp_u64(v: int) -> int {
    if v > u64::MAX as int {
        u64::MAX as int
    } else {
        v
    }
}

/// Rounded-up quotient `token_amount * fee_numerator / fee_denominator`,
/// cut off at `u64::MAX` when it does not fit.
pub fn ceil_div(token_amount: u64, fee_numerator: u64, fee_denominator: u64) -> (out: u64)
    requires
        fee_denominator != 0,
    ensures
        out as int == spec_clamp_u64(
            spec_ceil_div(token_amount as int, fee_numerator as int, fee_denominator as int),
        ),
{
    let amount: u128 = token_amount as u128;
    let numerator: u128 = fee_numerator as u128;
    let denominator: u128 = fee_denominator as u128;
    assert(amount * numerator <= 0xFFFF_FFFF_FFFF_FFFF * 0xFFFF_FFFF_FFFF_FFFF) by (nonlinear_arith)
        requires
            amount <= 0xFFFF_FFFF_FFFF_FFFF,
            numerator <= 0xFFFF_FFFF_FFFF_FFFF,
    ;
    let product: u128 = amount * numerator;
    let rounded: u128 = (product + (denominator - 1)) / denominator;
    if rounded > u64::MAX as u128 {
        u64::MAX
    } else {
        rounded as u64
    }
}

/// Fee on `amount` at `fee_rate` millionths, rounded up.
pub fn calculate_fee(amount: u64, fee_rate: u64) -> (fee: u64)
    ensures
        fee as int == spec_clamp_u64(
            spec_ceil_div(amount as int, fee_rate as int, FEE_RATE_DENOMINATOR_VALUE as int),
        ),
        fee_rate <= FEE_RATE_DENOMINATOR_VALUE ==> fee <= amount,
{
    proof {
        if fee_rate <= FEE_RATE_DENOMINATOR_VALUE {
            lemma_fee_at_most_amount(amount as int, fee_rate as int);
        }
    }
    ceil_div(amount, fee_rate, FEE_RATE_DENOMINATOR_VALUE)
}

/// A fee at a rate of at most the whole never exceeds the amount it is taken from.
pub proof fn lemma_fee_at_most_amount(amount: int, fee_rate: int)
    requires
        0 <= amount,
        0 <= fee_rate <= FEE_RATE_DENOMINATOR_VALUE,
    ensures
        0 <= spec_ceil_div(amount, fee_rate, FEE_RATE_DENOMINATOR_VALUE as int) <= amount,
{
    let d = FEE_RATE_DENOMINATOR_VALUE as int;
    assert(0 <= amount * fee_rate <= amount * d) by (nonlinear_arith)
        requires
            0 <= amount,
            0 <= fee_rate <= d,
    ;
    assert((amount * d + d - 1) / d == amount) by (nonlinear_arith)
        requires
            d == 1_000_000,
    ;
    assert((amount * fee_rate + d - 1) / d <= (amount * d + d - 1) / d) by (nonlinear_arith)
        requires
            amount * fee_rate <= amount * d,
            d == 1_000_000,
    ;
    assert(0 <= (amount * fee_rate + d - 1) / d) by (nonlinear_arith)
        requires
            0 <= amount * fee_rate,
            d == 1_000_000,
    ;
}

/// Constant-product output for `amount_in` against the two reserves:
/// `amount_in * output_reserve / (input_reserve + amount_in)`, and 0 when the
/// denominator is 0.
pub open spec fn spec_amount_out(amount_in: int, input_reserve: int, output_reserve: int) -> int {
    if input_reserve + amount_in == 0 {
        0
    } else {
        (amount_in * output_reserve) / (input_reserve + amount_in)
    }
}

/// Constant-product quote without fee.
pub fn get_amount_out(amount_in: u128, input_reserve: u128, output_reserve: u128) -> (out: u128)
    requires
        input_reserve + amount_in <= u128::MAX,
        amount_in * output_reserve <= u128::MAX,
    ensures
        out as int == spec_amount_out(
            amount_in as int,
            input_reserve as int,
            output_reserve as int,
        ),
{
    if input_reserve + amount_in == 0 {
        return 0;
    }
    let numerator: u128 = amount_in * output_reserve;
    let denominator: u128 = input_reserve + amount_in;
    numerator / denominator
}

/// The constant-product output never exceeds the output reserve.
pub proof fn lemma_amount_out_bounded(amount_in: int, input_reserve: int, output_reserve: int)
    requires
        0 <= amount_in,
        0 <= input_reserve,
        0 <= output_reserve,
    ensures
        0 <= spec_amount_out(amount_in, input_reserve, output_reserve) <= output_reserve,
{
    if input_reserve + amount_in != 0 {
        let d = input_reserve + amount_in;
        assert(0 <= amount_in * output_reserve <= d * output_reserve) by (nonlinear_arith)
            requires
                0 <= amount_in <= d,
                0 <= output_reserve,
        ;
        assert((d * output_reserve) / d == output_reserve) by (nonlinear_arith)
            requires
                d > 0,
        ;
        assert((amount_in * output_reserve) / d <= (d * output_reserve) / d) by (nonlinear_arith)
            requires
                amount_in * output_reserve <= d * output_reserve,
                d > 0,
        ;
        assert(0 <= (amount_in * output_reserve) / d) by (nonlinear_arith)
            requires
                0 <= amount_in * output_reserve,
                d > 0,
        ;
    }
}

/// The amount left of `amount_in` once the pool's trade and protocol fees are taken.
pub open spec fn spec_amount_less_fee(amount_in: int) -> int {
    amount_in - spec_ceil_div(
        amount_in,
        (TRADE_FEE_RATE + FEE_RATE) as int,
        FEE_RATE_DENOMINATOR_VALUE as int,
    )
}

/// Quote of the constant-product pool: the fee is deducted from `amount_in`,
/// the rest is swapped from the quote side into the base side.
pub fn get_swap_quote(amount_in: u64, base_reserve: u64, quote_reserve: u64) -> (out: u64)
    ensures
        out as int == spec_amount_out(
            spec_amount_less_fee(amount_in as int),
            quote_reserve as int,
            base_reserve as int,
        ),
        out <= base_reserve,
{
    let fee = calculate_fee(amount_in, TRADE_FEE_RATE + FEE_RATE);
    let amount_less_fee = amount_in - fee;
    proof {
        lemma_amount_out_bounded(
            amount_less_fee as int,
            quote_reserve as int,
            base_reserve as int,
        );
        assert(amount_less_fee as int * base_reserve as int <= u128::MAX) by (nonlinear_arith)
            requires
                0 <= amount_less_fee as int <= 0xFFFF_FFFF_FFFF_FFFF,
                0 <= base_reserve as int <= 0xFFFF_FFFF_FFFF_FFFF,
        ;
    }
    let result = get_amount_out(
        amount_less_fee as u128,
        quote_reserve as u128,
        base_reserve as u128,
    );
    result as u64
}

/// Tokens for `amount` native units on the bonding curve.
///
/// Buying: `reserve_token * amount / (amount + reserve_native)`. Selling keeps
/// the curve's off-by-one: `reserve_token * (amount + 1) / (amount +
/// reserve_native - 1)`. A denominator that is not positive gives 0; a
/// quotient beyond 64 bits is cut off at `u64::MAX`.
pub open spec fn spec_sol_token_quote(
    amount: int,
    virtual_sol_reserves: int,
    virtual_token_reserves: int,
    is_buy: bool,
) -> int {
    if is_buy {
        if amount + virtual_sol_reserves <= 0 {
            0
        } else {
            spec_clamp_u64((virtual_token_reserves * amount) / (amount + virtual_sol_reserves))
        }
    } else {
        if amount + virtual_sol_reserves - 1 <= 0 {
            0
        } else {
            spec_clamp_u64(
                (virtual_token_reserves * (amount + 1)) / (amount + virtual_sol_reserves - 1),
            )
        }
    }
}

/// Bonding-curve quote from native units to tokens.
pub fn sol_token_quote(
    amount: u64,
    virtual_sol_reserves: u64,
    virtual_token_reserves: u64,
    is_buy: bool,
) -> (out: u64)
    ensures
        out as int == spec_sol_token_quote(
            amount as int,
            virtual_sol_reserves as int,
            virtual_token_reserves as int,
            is_buy,
        ),
{
    let amount_wide: u128 = amount as u128;
    let sol: u128 = virtual_sol_reserves as u128;
    let token: u128 = virtual_token_reserves as u128;
    let (numerator_factor, denominator): (u128, u128) = if is_buy {
        (amount_wide, amount_wide + sol)
    } else {
        if amount_wide + sol <= 1 {
            return 0;
        }
        (amount_wide + 1, amount_wide + sol - 1)
    };
    if denominator == 0 {
        return 0;
    }
    assert(token * numerator_factor <= 0xFFFF_FFFF_FFFF_FFFF * 0x1_0000_0000_0000_0000)
        by (nonlinear_arith)
        requires
            token <= 0xFFFF_FFFF_FFFF_FFFF,
            numerator_factor <= 0x1_0000_0000_0000_0000,
    ;
    let quotient: u128 = (token * numerator_factor) / denominator;
    if quotient > u64::MAX as u128 {
        u64::MAX
    } else {
        quotient as u64
    }
}

/// Native units for `amount` tokens on the bonding curve.
///
/// Buying: `amount * reserve_native / (reserve_token - amount)`. Selling:
/// `amount * reserve_native / (reserve_token + amount)`. A denominator that is
/// not positive gives 0; a quotient beyond 64 bits is cut off at `u64::MAX`.
pub open spec fn spec_token_sol_quote(
    amount: int,
    virtual_sol_reserves: int,
    virtual_token_reserves: int,
    is_buy: bool,
) -> int {
    let denominator = if is_buy {
        virtual_token_reserves - amount
    } else {
        virtual_token_reserves + amount
    };
    if denominator <= 0 {
        0
    } else {
        spec_clamp_u64((amount * virtual_sol_reserves) / denominator)
    }
}

/// Bonding-curve quote from tokens to native units.
pub fn token_sol_quote(
    amount: u64,
    virtual_sol_reserves: u64,
    virtual_token_reserves: u64,
    is_buy: bool,
) -> (out: u64)
    ensures
        out as int == spec_token_sol_quote(
            amount as int,
            virtual_sol_reserves as int,
            virtual_token_reserves as int,
            is_buy,
        ),
{
    let amount_wide: u128 = amount as u128;
    let sol: u128 = virtual_sol_reserves as u128;
    let token: u128 = virtual_token_reserves as u128;
    let denominator: u128 = if is_buy {
        if token <= amount_wide {
            return 0;
        }
        token - amount_wide
    } else {
        token + amount_wide
    };
    if denominator == 0 {
        return 0;
    }
    assert(amount_wide * sol <= 0xFFFF_FFFF_FFFF_FFFF * 0xFFFF_FFFF_FFFF_FFFF) by (nonlinear_arith)
        requires
            amount_wide <= 0xFFFF_FFFF_FFFF_FFFF,
            sol <= 0xFFFF_FFFF_FFFF_FFFF,
    ;
    let quotient: u128 = (amount_wide * sol) / denominator;
    if quotient > u64::MAX as u128 {
        u64::MAX
    } else {
        quotient as u64
    }
}

} // verus!
