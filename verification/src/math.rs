//! Arithmetic on coin amounts.

use vstd::prelude::*;

verus! {

/// The number of atomic units in one whole of a decimal fraction: a share is
/// held as the integer `share * DECIMAL_FRACTIONAL`.
pub const DECIMAL_FRACTIONAL: u128 = 1_000_000_000_000_000_000u128;

/// A decimal fraction with eighteen digits after the point, held as its
/// number of atomic units.
#[derive(Clone, Copy, Debug, PartialEq, Eq, Structural)]
pub struct Decimal {
    pub atomics: u128,
}

impl Decimal {
    /// The fraction lies between zero and one, both included.
    pub open spec fn is_fraction(&self) -> bool {
        self.atomics <= DECIMAL_FRACTIONAL
    }
}

/// The part of `amount` that a share of `atomics` atomic units takes,
/// rounded down.
pub open spec fn share_of(amount: nat, atomics: nat) -> nat {
    (amount * atomics) / (DECIMAL_FRACTIONAL as nat)
}

/// A share of at most one whole takes no more than the amount.
pub proof fn lemma_share_of_bounded(amount: nat, atomics: nat)
    requires
        atomics <= DECIMAL_FRACTIONAL,
    ensures
        share_of(amount, atomics) <= amount,
{
    let d = DECIMAL_FRACTIONAL as nat;
    assert(amount * atomics <= amount * d) by (nonlinear_arith)
        requires
            atomics <= d,
    ;
    assert((amount * atomics) / d <= amount) by (nonlinear_arith)
        requires
            amount * atomics <= amount * d,
            d > 0,
    ;
}

/// Multiplies an amount by a decimal fraction with `cosmwasm_std`'s
/// `Uint128 * Decimal`. That product is `amount * atomics / 10^18` rounded
/// down, computed without intermediate overflow; it aborts where the result
/// does not fit 128 bits, which the precondition leaves out.
#[verifier::external_body]
pub(crate) fn mul_decimal(amount: u128, atomics: u128) -> (product: u128)
    requires
        share_of(amount as nat, atomics as nat) <= u128::MAX,
    ensures
        product == share_of(amount as nat, atomics as nat),
{
    (cosmwasm_std::Uint128::new(amount) * cosmwasm_std::Decimal::raw(atomics)).u128()
}

/// The quotient `amount * numerator / denominator`, rounded down, where it
/// exists and fits 128 bits.
pub open spec fn ratio_of(amount: nat, numerator: nat, denominator: nat) -> Option<u128> {
    if denominator != 0 && (amount * numerator) / denominator <= u128::MAX {
        Some(((amount * numerator) / denominator) as u128)
    } else {
        None
    }
}

/// Computes `amount * numerator / denominator`, rounded down, with
/// `cosmwasm_std`'s `Uint128::checked_multiply_ratio`, which multiplies in
/// 256 bits and gives no result where the denominator is zero or the
/// quotient does not fit 128 bits.
#[verifier::external_body]
pub(crate) fn checked_multiply_ratio(
    amount: u128,
    numerator: u128,
    denominator: u128,
) -> (ratio: Option<u128>)
    ensures
        ratio == ratio_of(amount as nat, numerator as nat, denominator as nat),
{
    match cosmwasm_std::Uint128::new(amount).checked_multiply_ratio(numerator, denominator) {
        Ok(ratio) => Some(ratio.u128()),
        Err(_) => None,
    }
}

/// The character that stands for a digit below ten.
pub open spec fn digit_char(digit: nat) -> char {
    (48 + digit) as u8 as char
}

/// A number written in base ten, without a sign and without leading zeros.
pub open spec fn decimal_digits(number: nat) -> Seq<char>
    decreases number,
{
    if number < 10 {
        seq![digit_char(number)]
    } else {
        decimal_digits(number / 10).push(digit_char(number % 10))
    }
}

/// Writes a number in base ten with std's `to_string` for `u64`, which
/// gives the digits alone: no sign, no leading zeros, `"0"` for zero.
#[verifier::external_body]
pub(crate) fn u64_to_string(number: u64) -> (text: String)
    ensures
        text@ == decimal_digits(number as nat),
{
    number.to_string()
}

} // verus!
