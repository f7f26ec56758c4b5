//! The valuation formulas of the core, stated over mathematical integers and
//! computed in 128-bit intermediates.
use vstd::prelude::*;
use vstd::arithmetic::div_mod::{lemma_basic_div, lemma_div_is_ordered};
use vstd::arithmetic::mul::lemma_mul_inequality;

verus! {

/// Prices are USD amounts scaled by 10^6.
pub const PRICE_DECIMALS: u32 = 6;

/// Percent base of the collateral ratios and of the liquidation penalty.
pub const PERCENT: u128 = 100;

/// Ten to the power `n`.
pub open spec fn pow10(n: nat) -> nat
    decreases n,
{
    if n == 0 {
        1
    } else {
        10 * pow10((n - 1) as nat)
    }
}

/// USD value (scaled by 10^6) of `amount` native units of a token with
/// `decimals` decimals at `price`: `floor(amount * price / 10^decimals)`.
pub open spec fn collateral_value(amount: u64, price: u64, decimals: u8) -> int {
    (amount * price) / (pow10(decimals as nat) as int)
}

/// Smallest collateral value that covers `debt` at the ratio `mcr` (in
/// percent): `floor(debt * mcr / 100)`.
pub open spec fn required_value(debt: u64, mcr: u64) -> int {
    (debt * mcr) / 100
}

/// USD value taken from a liquidated position for `repay` of debt:
/// `floor(repay * (100 + penalty) / 100)`.
pub open spec fn seize_value(repay: u64, penalty: u64) -> int {
    (repay * (100 + penalty)) / 100
}

/// Collateral units worth `value` at `price`:
/// `floor(value * 10^decimals / price)`.
pub open spec fn seize_amount(value: int, price: u64, decimals: u8) -> int {
    (value * pow10(decimals as nat)) / (price as int)
}

/// Whether the seize computation stays within 128 bits and divides by a
/// non-zero price.
pub open spec fn seize_computable(repay: u64, penalty: u64, price: u64, decimals: u8) -> bool {
    &&& repay * (100 + penalty) <= u128::MAX
    &&& seize_value(repay, penalty) * pow10(decimals as nat) <= u128::MAX
    &&& price > 0
}

pub proof fn lemma_pow10_positive(n: nat)
    ensures
        pow10(n) >= 1,
    decreases n,
{
    if n > 0 {
        lemma_pow10_positive((n - 1) as nat);
    }
}

pub proof fn lemma_pow10_monotonic(a: nat, b: nat)
    requires
        a <= b,
    ensures
        pow10(a) <= pow10(b),
    decreases b,
{
    if a < b {
        lemma_pow10_monotonic(a, (b - 1) as nat);
        lemma_pow10_positive((b - 1) as nat);
    }
}

pub proof fn lemma_pow10_values()
    ensures
        pow10(19) == 10_000_000_000_000_000_000,
        pow10(20) == 100_000_000_000_000_000_000,
        pow10(38) == 100_000_000_000_000_000_000_000_000_000_000_000_000,
        pow10(39) == 1_000_000_000_000_000_000_000_000_000_000_000_000_000,
{
    reveal_with_fuel(pow10, 40);
}

/// `10^n` for every `n` whose power fits in 128 bits.
pub fn pow10_u128(n: u32) -> (r: u128)
    requires
        n <= 38,
    ensures
        r == pow10(n as nat),
{
    let mut r: u128 = 1;
    let mut i: u32 = 0;
    while i < n
        invariant
            i <= n <= 38,
            r == pow10(i as nat),
        decreases n - i,
    {
        proof {
            lemma_pow10_values();
            lemma_pow10_monotonic((i + 1) as nat, 38);
        }
        r = r * 10;
        i = i + 1;
    }
    r
}

/// The product of two 64-bit values fits in 128 bits, with room to spare.
pub proof fn lemma_wide_product(a: u64, b: u64)
    ensures
        0 <= a * b <= u64::MAX * u64::MAX,
        u64::MAX * u64::MAX + 100 <= u128::MAX,
{
    assert(0 <= a * b <= u64::MAX * u64::MAX) by (nonlinear_arith);
}

/// A product of two 64-bit values divided by `10^d` with `d >= 39` is zero.
pub proof fn lemma_wide_quotient_vanishes(x: int, d: nat)
    requires
        0 <= x <= u128::MAX,
        d >= 39,
    ensures
        x / (pow10(d) as int) == 0,
{
    lemma_pow10_values();
    lemma_pow10_monotonic(39, d);
    lemma_basic_div(x, pow10(d) as int);
}

/// `collateral_value`, computed exactly.
pub fn collateral_value_of(amount: u64, price: u64, decimals: u8) -> (r: u128)
    ensures
        r == collateral_value(amount, price, decimals),
{
    proof {
        lemma_wide_product(amount, price);
    }
    let product = (amount as u128) * (price as u128);
    if decimals > 38 {
        proof {
            lemma_wide_quotient_vanishes(amount * price, decimals as nat);
        }
        0
    } else {
        let scale = pow10_u128(decimals as u32);
        proof {
            lemma_pow10_positive(decimals as nat);
        }
        product / scale
    }
}

/// `required_value`, computed exactly.
pub fn required_value_of(debt: u64, mcr: u64) -> (r: u128)
    ensures
        r == required_value(debt, mcr),
{
    proof {
        lemma_wide_product(debt, mcr);
    }
    (debt as u128) * (mcr as u128) / PERCENT
}

/// Whether `value * 100 >= debt * mcr`: the value covers the debt at the
/// ratio `mcr` without rounding.
pub fn covers_ratio(value: u128, debt: u64, mcr: u64) -> (r: bool)
    ensures
        r == (value * 100 >= debt * mcr),
{
    proof {
        lemma_wide_product(debt, mcr);
    }
    let needed = (debt as u128) * (mcr as u128);
    // value * 100 >= needed exactly when value >= ceil(needed / 100)
    value >= (needed + 99) / PERCENT
}

/// Collateral to seize for `repay` of debt, or `None` where
/// `seize_computable` does not hold.
pub fn seize_amount_of(repay: u64, penalty: u64, price: u64, decimals: u8) -> (r: Option<u128>)
    ensures
        r is Some <==> seize_computable(repay, penalty, price, decimals),
        r matches Some(n) ==> n == seize_amount(seize_value(repay, penalty), price, decimals),
{
    let rate = PERCENT + penalty as u128;
    let gross = match (repay as u128).checked_mul(rate) {
        Some(g) => g,
        None => return None,
    };
    let value = gross / PERCENT;
    assert(value == seize_value(repay, penalty));
    let scaled = if value == 0 {
        assert(value * pow10(decimals as nat) == 0);
        0
    } else if decimals > 38 {
        proof {
            lemma_pow10_values();
            lemma_pow10_monotonic(39, decimals as nat);
            lemma_mul_inequality(1, value as int, pow10(decimals as nat) as int);
        }
        return None;
    } else {
        let scale = pow10_u128(decimals as u32);
        match value.checked_mul(scale) {
            Some(s) => s,
            None => return None,
        }
    };
    if price == 0 {
        return None;
    }
    Some(scaled / (price as u128))
}

/// A larger amount of collateral is worth at least as much.
pub proof fn lemma_collateral_value_monotonic(a: u64, b: u64, price: u64, decimals: u8)
    requires
        a <= b,
    ensures
        collateral_value(a, price, decimals) <= collateral_value(b, price, decimals),
{
    lemma_mul_inequality(a as int, b as int, price as int);
    lemma_pow10_positive(decimals as nat);
    lemma_div_is_ordered(a * price, b * price, pow10(decimals as nat) as int);
}

/// A smaller debt needs at most as much collateral value.
pub proof fn lemma_required_value_monotonic(a: u64, b: u64, mcr: u64)
    requires
        a <= b,
    ensures
        required_value(a, mcr) <= required_value(b, mcr),
        a * mcr <= b * mcr,
{
    lemma_mul_inequality(a as int, b as int, mcr as int);
    lemma_div_is_ordered(a * mcr, b * mcr, 100);
}

} // verus!
