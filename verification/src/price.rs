//! Fixed-point prices and percentages.
//!
//! A price is the number of native units paid per whole token, held as an
//! integer in units of 10^-18. A percentage is held in millionths of the
//! whole, so one percent is 10_000 and the whole is 1_000_000. Comparisons of
//! a ratio against a percentage are exact: they are made on the cross
//! products, never on a rounded quotient.

use vstd::prelude::*;

verus! {

/// Decimal places of the native unit.
pub const NATIVE_DECIMALS: u8 = 9u8;

/// Decimal places assumed for a token whose balance metadata is missing.
pub const DEFAULT_TOKEN_DECIMALS: u8 = 6u8;

/// Decimal places of a price.
pub const PRICE_DECIMALS: u8 = 18u8;

/// The whole, in the unit of percentages.
pub const MILLIONTHS: u64 = 1_000_000u64;

/// One percent, in the unit of percentages.
pub const PERCENT: u64 = 10_000u64;

/// `10^n`.
pub open spec fn pow10(n: nat) -> nat
    decreases n,
{
    if n == 0 {
        1
    } else {
        10 * pow10((n - 1) as nat)
    }
}

/// Powers of ten are positive and grow with the exponent.
pub proof fn lemma_pow10_monotonic(a: nat, b: nat)
    requires
        a <= b,
    ensures
        0 < pow10(a) <= pow10(b),
    decreases b,
{
    if b == 0 {
    } else if a == b {
        lemma_pow10_monotonic(0, (b - 1) as nat);
    } else {
        lemma_pow10_monotonic(a, (b - 1) as nat);
    }
}

/// `10^n`, or `None` when it does not fit in 128 bits.
pub fn checked_pow10(n: u32) -> (out: Option<u128>)
    ensures
        out is Some <==> pow10(n as nat) <= u128::MAX,
        out is Some ==> out->Some_0 == pow10(n as nat),
{
    let mut acc: u128 = 1;
    let mut i: u32 = 0;
    while i < n
        invariant
            i <= n,
            acc == pow10(i as nat),
        decreases n - i,
    {
        match acc.checked_mul(10) {
            Some(next) => {
                acc = next;
            },
            None => {
                proof {
                    lemma_pow10_monotonic((i + 1) as nat, n as nat);
                }
                return None;
            },
        }
        i += 1;
    }
    Some(acc)
}

/// The price of a pool with the given reserves, in units of 10^-18 native
/// units per whole token: `(native / 10^9) / (token / 10^decimals)`, rounded
/// down. A pool without tokens has price 0.
pub open spec fn spec_price(native_reserve: int, token_reserve: int, token_decimals: nat) -> int {
    if token_reserve <= 0 {
        0
    } else {
        (native_reserve * pow10(token_decimals + 9)) / token_reserve
    }
}

/// Whether the price of such a pool can be computed in 128 bits.
pub open spec fn spec_price_fits(
    native_reserve: int,
    token_reserve: int,
    token_decimals: nat,
) -> bool {
    token_reserve <= 0 || native_reserve * pow10(token_decimals + 9) <= u128::MAX
}

/// Price of a pool from its two reserves in atomic units.
///
/// `None` only when the scaled native reserve exceeds 128 bits, which takes
/// more than ten token decimals.
pub fn derive_price(native_reserve: u64, token_reserve: u64, token_decimals: u8) -> (out: Option<
    u128,
>)
    ensures
        out is Some <==> spec_price_fits(
            native_reserve as int,
            token_reserve as int,
            token_decimals as nat,
        ),
        out is Some ==> out->Some_0 == spec_price(
            native_reserve as int,
            token_reserve as int,
            token_decimals as nat,
        ),
{
    if token_reserve == 0 {
        return Some(0);
    }
    if native_reserve == 0 {
        assert(0 * pow10((token_decimals + 9) as nat) == 0);
        assert(0int / (token_reserve as int) == 0);
        return Some(0);
    }
    let exponent: u32 = token_decimals as u32 + 9;
    let scale = match checked_pow10(exponent) {
        Some(scale) => scale,
        None => {
            assert(native_reserve * pow10(exponent as nat) > u128::MAX) by (nonlinear_arith)
                requires
                    native_reserve >= 1,
                    pow10(exponent as nat) > u128::MAX,
            ;
            return None;
        },
    };
    match (native_reserve as u128).checked_mul(scale) {
        Some(scaled) => Some(scaled / (token_reserve as u128)),
        None => None,
    }
}

/// `2^64`, the base of the two-limb products below.
pub open spec fn limb_base() -> int {
    0x1_0000_0000_0000_0000
}

/// Product of a 128-bit and a 64-bit number as two limbs: the result is
/// `high * 2^64 + low`.
pub fn wide_mul(a: u128, m: u64) -> (out: (u128, u64))
    ensures
        out.0 * limb_base() + out.1 == a * m,
{
    let base: u128 = 0x1_0000_0000_0000_0000;
    let a_high: u128 = a / base;
    let a_low: u128 = a % base;
    let m_wide: u128 = m as u128;
    assert(a_low * m_wide <= 0xFFFF_FFFF_FFFF_FFFF * 0xFFFF_FFFF_FFFF_FFFF) by (nonlinear_arith)
        requires
            a_low <= 0xFFFF_FFFF_FFFF_FFFF,
            m_wide <= 0xFFFF_FFFF_FFFF_FFFF,
    ;
    assert(a_high * m_wide <= 0xFFFF_FFFF_FFFF_FFFF * 0xFFFF_FFFF_FFFF_FFFF) by (nonlinear_arith)
        requires
            a_high <= 0xFFFF_FFFF_FFFF_FFFF,
            m_wide <= 0xFFFF_FFFF_FFFF_FFFF,
    ;
    let low_product: u128 = a_low * m_wide;
    let carry: u128 = low_product / base;
    let low: u128 = low_product % base;
    let high: u128 = a_high * m_wide + carry;
    assert(high * limb_base() + low == a * m) by (nonlinear_arith)
        requires
            a == a_high * limb_base() + a_low,
            low_product == a_low * m,
            low_product == carry * limb_base() + low,
            high == a_high * m + carry,
    ;
    (high, low as u64)
}

/// Whether `part / whole` reaches `threshold` millionths, decided on the
/// cross products.
pub open spec fn spec_ratio_at_least(part: int, whole: int, threshold: int) -> bool {
    part * MILLIONTHS as int >= threshold * whole
}

/// Exact test of `part * 1_000_000 >= threshold * whole`.
pub fn ratio_at_least(part: u128, whole: u128, threshold: u64) -> (out: bool)
    ensures
        out == spec_ratio_at_least(part as int, whole as int, threshold as int),
{
    let left = wide_mul(part, MILLIONTHS);
    let right = wide_mul(whole, threshold);
    assert(left.0 * limb_base() + left.1 >= right.0 * limb_base() + right.1 <==> (left.0 > right.0
        || (left.0 == right.0 && left.1 >= right.1))) by (nonlinear_arith)
        requires
            0 <= left.1 < limb_base(),
            0 <= right.1 < limb_base(),
            limb_base() > 0,
    ;
    assert(threshold * whole == whole * threshold) by (nonlinear_arith);
    left.0 > right.0 || (left.0 == right.0 && left.1 >= right.1)
}

/// Least acceptable output of a base-in swap: the raw quote less the pool's
/// 0.3 % and less `slippage` millionths, rounded down. A slippage of the
/// whole or more leaves 0.
pub open spec fn spec_min_out(raw_out: int, slippage: int) -> int {
    if slippage >= MILLIONTHS {
        0
    } else {
        (raw_out * 997 * (MILLIONTHS - slippage)) / (1000 * MILLIONTHS)
    }
}

/// See [`spec_min_out`].
pub fn min_out_with_slippage(raw_out: u64, slippage: u64) -> (out: u64)
    ensures
        out as int == spec_min_out(raw_out as int, slippage as int),
        out <= raw_out,
{
    if slippage >= MILLIONTHS {
        return 0;
    }
    let keep: u128 = (MILLIONTHS - slippage) as u128;
    let raw: u128 = raw_out as u128;
    assert(raw * 997 * keep <= raw * 1_000_000_000) by (nonlinear_arith)
        requires
            0 <= raw,
            0 < keep <= 1_000_000,
    ;
    assert(raw * 997 * keep >= 0) by (nonlinear_arith)
        requires
            0 <= raw,
            0 < keep,
    ;
    let scaled: u128 = raw * 997 * keep;
    let out: u128 = scaled / 1_000_000_000;
    assert(out <= raw) by (nonlinear_arith)
        requires
            out == scaled / 1_000_000_000,
            scaled <= raw * 1_000_000_000,
    ;
    out as u64
}

/// Limit on the quote side of a bonding-curve swap: the quoted amount times
/// 1.0025, moved by `slippage` millionths upwards (a ceiling on what is paid)
/// or downwards (a floor on what is received), rounded down and cut off at
/// `u64::MAX`.
pub open spec fn spec_quote_limit(quoted: int, slippage: int, upward: bool) -> int {
    if upward {
        crate::math::spec_clamp_u64(
            (quoted * 10025 * (MILLIONTHS + slippage)) / (10000 * MILLIONTHS),
        )
    } else if slippage >= MILLIONTHS {
        0
    } else {
        crate::math::spec_clamp_u64(
            (quoted * 10025 * (MILLIONTHS - slippage)) / (10000 * MILLIONTHS),
        )
    }
}

/// See [`spec_quote_limit`].
pub fn quote_limit_with_slippage(quoted: u64, slippage: u64, upward: bool) -> (out: u64)
    ensures
        out as int == spec_quote_limit(quoted as int, slippage as int, upward),
{
    let factor: u128 = if upward {
        MILLIONTHS as u128 + slippage as u128
    } else if slippage >= MILLIONTHS {
        return 0;
    } else {
        (MILLIONTHS - slippage) as u128
    };
    let with_fee: u128 = quoted as u128 * 10025;
    match with_fee.checked_mul(factor) {
        Some(scaled) => {
            assert(quoted * 10025 * factor == scaled);
            let limit: u128 = scaled / 10_000_000_000;
            if limit > u64::MAX as u128 {
                u64::MAX
            } else {
                limit as u64
            }
        },
        None => {
            assert((quoted * 10025 * factor) / 10_000_000_000 > u64::MAX) by (nonlinear_arith)
                requires
                    quoted * 10025 * factor > u128::MAX,
            ;
            u64::MAX
        },
    }
}

/// Native units wrapped ahead of a buy: a tenth more than the amount spent,
/// rounded down and cut off at `u64::MAX`.
pub open spec fn spec_wrap_amount(amount_in: int) -> int {
    crate::math::spec_clamp_u64((amount_in * 11) / 10)
}

/// See [`spec_wrap_amount`].
pub fn wrap_amount(amount_in: u64) -> (out: u64)
    ensures
        out as int == spec_wrap_amount(amount_in as int),
{
    let padded: u128 = (amount_in as u128 * 11) / 10;
    if padded > u64::MAX as u128 {
        u64::MAX
    } else {
        padded as u64
    }
}

} // verus!
