//! The prioritization fee, settled once per session.
//!
//! A fee comes from a price through one normalization, `(x - 50_000) / 14`:
//! the automatic fee is the normalized price `5_000_000`, a custom fee is the
//! normalized price `floor(input * 10^10)`.

use crate::decimal::{
    clamp_u64, decimal_syntax, decimal_value, lemma_pow10_positive, pow10, Decimal, DecimalValue,
};
use crate::error::TradeError;
use crate::text::is_letter;
use vstd::arithmetic::div_mod::{
    lemma_div_denominator, lemma_div_is_ordered, lemma_fundamental_div_mod,
    lemma_fundamental_div_mod_converse, lemma_mod_bound,
};
use vstd::prelude::*;

verus! {

/// What is taken off a price before it is divided.
pub const FEE_OFFSET: u64 = 50_000;

/// What a price is divided by.
pub const FEE_DIVISOR: u64 = 14;

/// The price behind the automatic fee.
pub const AUTO_PRICE: u64 = 5_000_000;

/// The automatic fee.
pub const AUTO_FEE: u64 = 353571;

/// A custom input is scaled by `10^10` to give a price.
pub const CUSTOM_PLACES: u8 = 10;

/// The fee for a price: `floor((price - 50_000) / 14)`.
pub open spec fn normalized(price: int) -> int {
    (price - FEE_OFFSET) / (FEE_DIVISOR as int)
}

/// The fee for a custom input: the normalized price
/// `floor(input * 10^10)`, the price held to the range of `u64`. An input
/// whose price is below the offset has no fee, since a fee is not negative.
pub open spec fn custom_fee(input: DecimalValue) -> Result<u64, TradeError> {
    let price = clamp_u64(input.scaled_floor(CUSTOM_PLACES as nat));
    if price < FEE_OFFSET {
        Err(TradeError::InvalidInput)
    } else {
        Ok(normalized(price as int) as u64)
    }
}

/// Whether the user's choice asks for the automatic fee.
pub open spec fn is_auto(choice: Seq<char>) -> bool {
    choice =~= seq!['a'] || choice =~= seq!['A']
}

/// The fee for the user's choice: the automatic fee for `a` or `A`, else the
/// custom fee of the decimal that the choice writes. A choice that is
/// neither has no fee.
pub open spec fn fee_of(choice: Seq<char>) -> Result<u64, TradeError> {
    if is_auto(choice) {
        Ok(AUTO_FEE)
    } else if decimal_syntax(choice) {
        custom_fee(decimal_value(choice))
    } else {
        Err(TradeError::InvalidInput)
    }
}

/// The fee for a custom input.
pub fn compute_custom_fee(input: &Decimal) -> (r: Result<u64, TradeError>)
    ensures
        r == custom_fee(input@),
{
    let price = input.scaled_floor_saturating(CUSTOM_PLACES);
    if price < FEE_OFFSET {
        Err(TradeError::InvalidInput)
    } else {
        Ok((price - FEE_OFFSET) / FEE_DIVISOR)
    }
}

/// The fee for the user's choice. The automatic fee depends on nothing but
/// the choice being `a` or `A`.
pub fn compute_fee(choice: &str) -> (r: Result<u64, TradeError>)
    ensures
        r == fee_of(choice@),
        is_auto(choice@) ==> r == Ok::<u64, TradeError>(353571),
{
    if is_letter(choice, 'a') || is_letter(choice, 'A') {
        return Ok(AUTO_FEE);
    }
    match Decimal::parse(choice) {
        Some(input) => compute_custom_fee(&input),
        None => Err(TradeError::InvalidInput),
    }
}

/// The automatic fee is the normalized automatic price.
pub proof fn lemma_auto_fee_is_normalized()
    ensures
        AUTO_FEE == normalized(AUTO_PRICE as int),
        AUTO_FEE == (5_000_000 - 50_000) / 14,
{
}

/// A larger custom input never gives a smaller fee: where the smaller input
/// has a fee, the larger one has a fee too, and it is at least as large.
pub proof fn lemma_custom_fee_monotonic(smaller: DecimalValue, larger: DecimalValue)
    requires
        smaller.le(larger),
        custom_fee(smaller) is Ok,
    ensures
        custom_fee(larger) is Ok,
        custom_fee(smaller)->Ok_0 <= custom_fee(larger)->Ok_0,
{
    smaller.lemma_scaled_floor_monotonic(larger, CUSTOM_PLACES as nat);
    let low = clamp_u64(smaller.scaled_floor(CUSTOM_PLACES as nat));
    let high = clamp_u64(larger.scaled_floor(CUSTOM_PLACES as nat));
    lemma_div_is_ordered(low - FEE_OFFSET, high - FEE_OFFSET, FEE_DIVISOR as int);
}

/// Within the range of `u64`, a custom fee is the formula over the exact
/// input: `floor((input * 10^10 - 50_000) / 14)`. Rounding the price down
/// first, as the computation does, changes nothing.
pub proof fn lemma_custom_fee_is_formula(input: DecimalValue)
    requires
        custom_fee(input) is Ok,
        input.scaled_floor(10) <= u64::MAX,
    ensures
        custom_fee(input)->Ok_0 == (input.numerator * pow10(10) - 50_000 * pow10(input.scale)) / ((
        14 * pow10(input.scale)) as int),
{
    let x = input.numerator * pow10(10);
    let p = pow10(input.scale) as int;
    lemma_pow10_positive(input.scale);
    let q = x / p;
    let r = x % p;
    lemma_fundamental_div_mod(x, p);
    lemma_mod_bound(x, p);
    let y = x - 50_000 * p;
    assert(y == (q - 50_000) * p + r) by (nonlinear_arith)
        requires
            x == p * q + r,
            y == x - 50_000 * p,
    ;
    lemma_fundamental_div_mod_converse(y, p, q - 50_000, r);
    assert(y >= 0) by (nonlinear_arith)
        requires
            y == (q - 50_000) * p + r,
            q >= 50_000,
            p > 0,
            r >= 0,
    ;
    lemma_div_denominator(y, p, 14);
}

} // verus!
