//! Decimal amounts as a mantissa and a scale, and their encoding as unsigned
//! integers at an asset's precision.
//!
//! Parsing and multiplication are left to `rust_decimal`; the encoding is
//! integer arithmetic on the mantissa and is proved here.

use vstd::arithmetic::div_mod::{
    lemma_basic_div,
    lemma_div_by_multiple,
    lemma_div_denominator,
    lemma_div_multiples_vanish_quotient,
};
use vstd::arithmetic::mul::{lemma_mul_inequality, lemma_mul_is_associative};
use vstd::prelude::*;

verus! {

/// A decimal number: `mantissa` divided by ten to the power `scale`.
#[derive(Clone, Copy, Debug, PartialEq, Eq, Structural)]
pub struct DecimalValue {
    pub mantissa: i128,
    pub scale: u32,
}

/// What `rust_decimal` reads from a text: the number it denotes, or `None`
/// where the text is no decimal number.
pub uninterp spec fn decimal_from_str(text: Seq<char>) -> Option<DecimalValue>;

/// What `rust_decimal` gives as the product of two numbers: the product,
/// rounded where it has more digits than the type can hold, or `None` where
/// it does not fit.
pub uninterp spec fn decimal_product(left: DecimalValue, right: DecimalValue) -> Option<
    DecimalValue,
>;

/// Calls `rust_decimal::Decimal`'s `FromStr` and reads the mantissa and the
/// scale off the number it returns. Trusted: the result is whatever that
/// parser makes of the text, and `None` where it reports an error.
#[verifier::external_body]
pub(crate) fn parse_decimal(text: &str) -> (value: Option<DecimalValue>)
    ensures
        value == decimal_from_str(text@),
{
    match text.parse::<rust_decimal::Decimal>() {
        Ok(number) => Some(DecimalValue { mantissa: number.mantissa(), scale: number.scale() }),
        Err(_) => None,
    }
}

/// Calls `rust_decimal::Decimal::checked_mul` on the two numbers, which are
/// rebuilt with `try_from_i128_with_scale`. Trusted: the result is whatever
/// that multiplication returns, and `None` where it reports an overflow or
/// where an operand is outside the range of the type.
#[verifier::external_body]
pub(crate) fn multiply_decimals(left: DecimalValue, right: DecimalValue) -> (product: Option<
    DecimalValue,
>)
    ensures
        product == decimal_product(left, right),
{
    let l = rust_decimal::Decimal::try_from_i128_with_scale(left.mantissa, left.scale).ok()?;
    let r = rust_decimal::Decimal::try_from_i128_with_scale(right.mantissa, right.scale).ok()?;
    let p = l.checked_mul(r)?;
    Some(DecimalValue { mantissa: p.mantissa(), scale: p.scale() })
}

/// Ten to the power `exponent`.
pub open spec fn pow10(exponent: nat) -> nat
    decreases exponent,
{
    if exponent == 0 {
        1
    } else {
        10 * pow10((exponent - 1) as nat)
    }
}

/// The number of units of ten to the power minus `prec` in `value`, rounded
/// down.
pub open spec fn scaled(value: DecimalValue, prec: u32) -> int {
    (value.mantissa * pow10(prec as nat)) / (pow10(value.scale as nat) as int)
}

/// The encoding of `value` at `prec` decimal places: its scaled value, where
/// the number is not negative and the scaled value fits in 64 bits.
pub open spec fn encoding(value: DecimalValue, prec: u32) -> Option<u64> {
    if value.mantissa >= 0 && scaled(value, prec) <= u64::MAX {
        Some(scaled(value, prec) as u64)
    } else {
        None
    }
}

/// Powers of ten are positive.
pub proof fn lemma_pow10_positive(exponent: nat)
    ensures
        pow10(exponent) >= 1,
    decreases exponent,
{
    if exponent > 0 {
        lemma_pow10_positive((exponent - 1) as nat);
    }
}

/// Ten to a sum is the product of the powers.
pub proof fn lemma_pow10_adds(left: nat, right: nat)
    ensures
        pow10(left + right) == pow10(left) * pow10(right),
    decreases left,
{
    if left == 0 {
        assert(pow10(0) == 1);
        assert(left + right == right);
    } else {
        let rest = (left - 1) as nat;
        lemma_pow10_adds(rest, right);
        assert((left + right - 1) as nat == rest + right);
        assert(pow10(left + right) == 10 * pow10(rest + right));
        assert(pow10(left) == 10 * pow10(rest));
        assert(10 * (pow10(rest) * pow10(right)) == (10 * pow10(rest)) * pow10(right))
            by (nonlinear_arith);
    }
}

/// Powers of ten grow with the exponent.
pub proof fn lemma_pow10_increases(small: nat, large: nat)
    requires
        small <= large,
    ensures
        pow10(small) <= pow10(large),
    decreases large,
{
    if small < large {
        lemma_pow10_increases(small, (large - 1) as nat);
    }
}

/// Where the precision is at least the scale, scaling multiplies the mantissa
/// by a power of ten.
pub proof fn lemma_scaled_up(value: DecimalValue, prec: u32)
    requires
        value.mantissa >= 0,
        prec >= value.scale,
    ensures
        scaled(value, prec) == value.mantissa * pow10((prec - value.scale) as nat),
{
    let shift = pow10((prec - value.scale) as nat) as int;
    let unit = pow10(value.scale as nat) as int;
    lemma_pow10_positive(value.scale as nat);
    lemma_pow10_adds((prec - value.scale) as nat, value.scale as nat);
    assert(pow10(prec as nat) == shift * unit);
    lemma_mul_is_associative(value.mantissa as int, shift, unit);
    assert(value.mantissa * (shift * unit) == (value.mantissa * shift) * unit);
    assert(value.mantissa * shift >= 0) by (nonlinear_arith)
        requires
            value.mantissa >= 0,
            shift >= 0,
    ;
    lemma_div_by_multiple(value.mantissa * shift, unit);
}

/// Where the precision is below the scale, scaling divides the mantissa by a
/// power of ten.
pub proof fn lemma_scaled_down(value: DecimalValue, prec: u32)
    requires
        value.mantissa >= 0,
        prec < value.scale,
    ensures
        scaled(value, prec) == (value.mantissa as int) / (pow10((value.scale - prec) as nat) as int),
{
    let common = pow10(prec as nat) as int;
    let shift = pow10((value.scale - prec) as nat) as int;
    lemma_pow10_positive(prec as nat);
    lemma_pow10_positive((value.scale - prec) as nat);
    lemma_pow10_adds(prec as nat, (value.scale - prec) as nat);
    assert(pow10(value.scale as nat) == common * shift);
    lemma_div_multiples_vanish_quotient(common, value.mantissa as int, shift);
    assert(value.mantissa * common == common * value.mantissa) by (nonlinear_arith);
}

/// Encodes a decimal number as an unsigned integer at `prec` decimal places,
/// dropping the digits beyond them. `None` for a negative number and for one
/// whose encoding does not fit in 64 bits.
pub fn encode(value: DecimalValue, prec: u32) -> (encoded: Option<u64>)
    ensures
        encoded == encoding(value, prec),
{
    if value.mantissa < 0 {
        return None;
    }
    if prec >= value.scale {
        let digits: u32 = prec - value.scale;
        proof {
            lemma_scaled_up(value, prec);
            lemma_pow10_positive(digits as nat);
            assert(value.mantissa * pow10(digits as nat) >= value.mantissa) by (nonlinear_arith)
                requires
                    value.mantissa >= 0,
                    pow10(digits as nat) >= 1,
            ;
        }
        if value.mantissa > u64::MAX as i128 {
            return None;
        }
        if value.mantissa == 0 {
            assert(value.mantissa * pow10(digits as nat) == 0) by (nonlinear_arith)
                requires
                    value.mantissa == 0,
            ;
            return Some(0);
        }
        let mut acc: u64 = value.mantissa as u64;
        let mut done: u32 = 0;
        assert(pow10(0) == 1);
        while done < digits
            invariant
                done <= digits,
                acc >= 1,
                value.mantissa >= 1,
                acc == value.mantissa * pow10(done as nat),
                scaled(value, prec) == value.mantissa * pow10(digits as nat),
            decreases digits - done,
        {
            proof {
                lemma_mul_is_associative(value.mantissa as int, pow10(done as nat) as int, 10);
                assert(value.mantissa * pow10((done + 1) as nat) == acc * 10) by {
                    assert(pow10((done + 1) as nat) == 10 * pow10(done as nat));
                    assert(value.mantissa * (10 * pow10(done as nat)) == (value.mantissa * pow10(
                        done as nat,
                    )) * 10) by (nonlinear_arith);
                }
            }
            match acc.checked_mul(10) {
                Some(next) => {
                    acc = next;
                    done = done + 1;
                },
                None => {
                    proof {
                        lemma_pow10_increases((done + 1) as nat, digits as nat);
                        lemma_mul_inequality(
                            pow10((done + 1) as nat) as int,
                            pow10(digits as nat) as int,
                            value.mantissa as int,
                        );
                        assert(value.mantissa * pow10(digits as nat) == pow10(digits as nat)
                            * value.mantissa) by (nonlinear_arith);
                        assert(value.mantissa * pow10((done + 1) as nat) == pow10(
                            (done + 1) as nat,
                        ) * value.mantissa) by (nonlinear_arith);
                    }
                    return None;
                },
            }
        }
        Some(acc)
    } else {
        let digits: u32 = value.scale - prec;
        proof {
            lemma_scaled_down(value, prec);
        }
        let mut acc: i128 = value.mantissa;
        let mut done: u32 = 0;
        assert(pow10(0) == 1);
        while done < digits && acc > 0
            invariant
                done <= digits,
                acc >= 0,
                value.mantissa >= 0,
                acc == (value.mantissa as int) / (pow10(done as nat) as int),
            decreases digits - done,
        {
            proof {
                lemma_pow10_positive(done as nat);
                lemma_div_denominator(value.mantissa as int, pow10(done as nat) as int, 10);
                assert(pow10((done + 1) as nat) == pow10(done as nat) * 10);
            }
            acc = acc / 10;
            done = done + 1;
        }
        proof {
            if done < digits {
                let rest = pow10((digits - done) as nat) as int;
                lemma_pow10_positive(done as nat);
                lemma_pow10_positive((digits - done) as nat);
                lemma_pow10_adds(done as nat, (digits - done) as nat);
                lemma_div_denominator(value.mantissa as int, pow10(done as nat) as int, rest);
                lemma_basic_div(0, rest);
            }
            assert(acc == scaled(value, prec));
        }
        if acc > u64::MAX as i128 {
            None
        } else {
            Some(acc as u64)
        }
    }
}

} // verus!
