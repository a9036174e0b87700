//! Turning what the user asks for into an exact amount in the smallest unit
//! of a token.

use crate::decimal::{
    all_digits, clamp_u64, decimal_syntax, decimal_value, digit_values, is_digit, number_of, Decimal,
    DecimalValue, NINE, PLUS, ZERO,
};
use crate::error::TradeError;
use crate::text::is_letter;
use vstd::prelude::*;
use vstd::string::*;
use vstd::utf8::is_ascii_chars;

verus! {

/// The native currency has nine decimal places: one unit is `10^9` of its
/// smallest unit.
pub const NATIVE_PLACES: u8 = 9;

/// The amount bought with `quantity` units of the native currency:
/// `floor(quantity * 10^9)`, held to the range of `u64`. A quantity below
/// zero is no amount.
pub open spec fn buy_amount(quantity: DecimalValue) -> Result<u64, TradeError> {
    if quantity.is_negative() {
        Err(TradeError::InvalidInput)
    } else {
        Ok(clamp_u64(quantity.scaled_floor(NATIVE_PLACES as nat)))
    }
}

/// The quantity that an entry of the user writes: a decimal that is not
/// below zero. Anything else is no quantity.
pub open spec fn quantity_of(entry: Seq<char>) -> Result<DecimalValue, TradeError> {
    if decimal_syntax(entry) && !decimal_value(entry).is_negative() {
        Ok(decimal_value(entry))
    } else {
        Err(TradeError::InvalidInput)
    }
}

/// The amount sold when `percent` of `balance` is sold:
/// `floor(balance * percent / 100)`. Only 50 and 100 are accepted.
pub open spec fn sell_amount(balance: u64, percent: u64) -> Result<u64, TradeError> {
    if percent == 50 || percent == 100 {
        Ok(((balance * percent) / 100) as u64)
    } else {
        Err(TradeError::InvalidInput)
    }
}

/// The percentage that a choice of the user stands for: `a` for 50, `b` for
/// 100. Anything else is no choice.
pub open spec fn percent_of(choice: Seq<char>) -> Result<u64, TradeError> {
    if choice =~= seq!['a'] {
        Ok(50)
    } else if choice =~= seq!['b'] {
        Ok(100)
    } else {
        Err(TradeError::InvalidInput)
    }
}

/// Whether `s` writes an unsigned integer: an optional `+` and at least one
/// digit.
pub open spec fn unsigned_syntax(s: Seq<char>) -> bool {
    let body = unsigned_body(s);
    body.len() > 0 && all_digits(body)
}

/// The digits of an unsigned integer, without the `+` that may precede them.
pub open spec fn unsigned_body(s: Seq<char>) -> Seq<char> {
    if s.len() > 0 && s[0] == '+' {
        s.skip(1)
    } else {
        s
    }
}

/// The balance that a ledger's answer writes, where it is an unsigned
/// integer that fits `u64`. Anything else is not the expected shape.
pub open spec fn balance_of(answer: Seq<char>) -> Result<u64, TradeError> {
    if unsigned_syntax(answer) && number_of(digit_values(unsigned_body(answer))) <= u64::MAX {
        Ok(number_of(digit_values(unsigned_body(answer))) as u64)
    } else {
        Err(TradeError::ProtocolError)
    }
}

/// The amount in the smallest unit for a buy of `quantity` units of the
/// native currency.
pub fn resolve_buy_amount(quantity: &Decimal) -> (r: Result<u64, TradeError>)
    ensures
        r == buy_amount(quantity@),
{
    if quantity.is_negative() {
        Err(TradeError::InvalidInput)
    } else {
        Ok(quantity.scaled_floor_saturating(NATIVE_PLACES))
    }
}

/// Reads the quantity that the user entered for a buy.
pub fn parse_quantity(entry: &str) -> (r: Result<Decimal, TradeError>)
    ensures
        match quantity_of(entry@) {
            Ok(value) => r is Ok && r->Ok_0@ == value,
            Err(e) => r is Err && r->Err_0 == e,
        },
{
    match Decimal::parse(entry) {
        Some(quantity) => {
            if quantity.is_negative() {
                Err(TradeError::InvalidInput)
            } else {
                Ok(quantity)
            }
        },
        None => Err(TradeError::InvalidInput),
    }
}

/// The amount for a sale of `percent` of `balance`. A balance of zero gives
/// an amount of zero, which is an amount like any other.
pub fn resolve_sell_amount(balance: u64, percent: u64) -> (r: Result<u64, TradeError>)
    ensures
        r == sell_amount(balance, percent),
{
    if percent == 50 || percent == 100 {
        assert(balance * percent <= 0xFFFF_FFFF_FFFF_FFFF * 100) by (nonlinear_arith)
            requires
                balance <= 0xFFFF_FFFF_FFFF_FFFF,
                percent <= 100,
        ;
        let wide: u128 = balance as u128 * percent as u128;
        assert(wide / 100 <= balance) by (nonlinear_arith)
            requires
                wide == balance * percent,
                percent <= 100,
        ;
        Ok((wide / 100) as u64)
    } else {
        Err(TradeError::InvalidInput)
    }
}

/// Reads the user's choice of how much to sell.
pub fn parse_percent(choice: &str) -> (r: Result<u64, TradeError>)
    ensures
        r == percent_of(choice@),
{
    if is_letter(choice, 'a') {
        Ok(50)
    } else if is_letter(choice, 'b') {
        Ok(100)
    } else {
        Err(TradeError::InvalidInput)
    }
}

/// A number written with more digits is no smaller than what its first
/// digits write.
proof fn lemma_number_prefix(digits: Seq<u8>, k: int)
    requires
        0 <= k <= digits.len(),
    ensures
        number_of(digits.take(k)) <= number_of(digits),
    decreases digits.len() - k,
{
    if k < digits.len() {
        lemma_number_prefix(digits, k + 1);
        assert(digits.take(k + 1).drop_last() =~= digits.take(k));
    } else {
        assert(digits.take(k) =~= digits);
    }
}

/// Reads the balance that the ledger answered with.
pub fn parse_balance(answer: &str) -> (r: Result<u64, TradeError>)
    ensures
        r == balance_of(answer@),
{
    let ghost s = answer@;
    if !answer.is_ascii() {
        proof {
            let i = choose|i: int| 0 <= i < s.len() && !('\0' <= #[trigger] s[i] <= '\u{7f}');
            if s[0] == '+' {
                assert(unsigned_body(s)[i - 1] == s[i]);
            }
        }
        return Err(TradeError::ProtocolError);
    }
    let bytes = answer.as_bytes();
    proof {
        is_ascii_spec_bytes(answer);
    }
    let n = bytes.len();
    let start: usize = if n > 0 && bytes[0] == PLUS {
        1
    } else {
        0
    };
    let ghost body = unsigned_body(s);
    if start == n {
        return Err(TradeError::ProtocolError);
    }
    let mut acc: u64 = 0;
    let mut i: usize = start;
    while i < n
        invariant
            start <= i <= n,
            s == answer@,
            n == s.len(),
            n == bytes@.len(),
            body == unsigned_body(s),
            body =~= s.skip(start as int),
            bytes@ =~= Seq::new(s.len(), |k: int| s[k] as u8),
            is_ascii_chars(s),
            all_digits(body.take(i - start)),
            acc == number_of(digit_values(body).take(i - start)),
        decreases n - i,
    {
        let b = bytes[i];
        if b < ZERO || b > NINE {
            proof {
                assert(!is_digit(body[i - start]));
            }
            return Err(TradeError::ProtocolError);
        }
        let ghost next = digit_values(body).take(i - start + 1);
        proof {
            assert(next.drop_last() =~= digit_values(body).take(i - start));
        }
        let wide: u128 = acc as u128 * 10 + (b - ZERO) as u128;
        if wide > u64::MAX as u128 {
            proof {
                // the remaining characters may not be digits; either way the
                // answer is refused
                lemma_number_prefix(digit_values(body), i - start + 1);
            }
            return Err(TradeError::ProtocolError);
        }
        acc = wide as u64;
        proof {
            assert forall|k: int| 0 <= k < i - start + 1 implies is_digit(
                #[trigger] body.take(i - start + 1)[k],
            ) by {}
        }
        i += 1;
    }
    proof {
        assert(body.take(n - start) =~= body);
        assert(digit_values(body).take(n - start) =~= digit_values(body));
    }
    Ok(acc)
}

/// Within the range of `u64`, a buy resolves to `floor(quantity * 10^9)` for
/// every quantity that is not below zero.
pub proof fn lemma_buy_amount_is_floor(quantity: DecimalValue)
    requires
        !quantity.is_negative(),
        quantity.scaled_floor(9) <= u64::MAX,
    ensures
        buy_amount(quantity) == Ok::<u64, TradeError>(quantity.scaled_floor(9) as u64),
{
    quantity.lemma_non_negative_scaled_floor(9);
}

/// A sale of 50 or 100 percent resolves to `floor(balance * percent / 100)`,
/// which never exceeds the balance; a sale of 100 percent is the balance.
pub proof fn lemma_sell_amount_is_floor(balance: u64, percent: u64)
    requires
        percent == 50 || percent == 100,
    ensures
        sell_amount(balance, percent) is Ok,
        sell_amount(balance, percent)->Ok_0 == (balance * percent) / 100,
        sell_amount(balance, percent)->Ok_0 <= balance,
        sell_amount(balance, 100) == Ok::<u64, TradeError>(balance),
{
    assert((balance * percent) / 100 <= balance) by (nonlinear_arith)
        requires
            percent <= 100,
            balance >= 0,
            percent >= 0,
    ;
}

} // verus!
