//! Exact decimal numbers as the user types them.
//!
//! A decimal is an optional sign, digits, and an optional point followed by
//! more digits, with at least one digit in all: `12`, `0.01`, `.5`, `7.`,
//! `-3.25`. Its value is kept exactly, as an integer numerator over a power
//! of ten, so that scaling to the smallest currency unit never rounds.

use vstd::arithmetic::div_mod::*;
use vstd::arithmetic::mul::*;
use vstd::prelude::*;
use vstd::string::*;
use vstd::utf8::is_ascii_chars;

verus! {

/// The ASCII code of `+`.
pub const PLUS: u8 = 43;

/// The ASCII code of `-`.
pub const MINUS: u8 = 45;

/// The ASCII code of `.`.
pub const POINT: u8 = 46;

/// The ASCII code of `0`.
pub const ZERO: u8 = 48;

/// The ASCII code of `9`.
pub const NINE: u8 = 57;

/// Ten to the power `n`.
pub open spec fn pow10(n: nat) -> nat
    decreases n,
{
    if n == 0 {
        1
    } else {
        10 * pow10((n - 1) as nat)
    }
}

/// The number that a sequence of digit values writes, most significant first.
pub open spec fn number_of(digits: Seq<u8>) -> nat
    decreases digits.len(),
{
    if digits.len() == 0 {
        0
    } else {
        number_of(digits.drop_last()) * 10 + digits.last() as nat
    }
}

/// Whether `c` is one of `0` to `9`.
pub open spec fn is_digit(c: char) -> bool {
    '0' <= c <= '9'
}

/// The value of the digit `c`.
pub open spec fn digit_value(c: char) -> u8 {
    (c as u8 - ZERO) as u8
}

/// Whether every character of `s` is a digit.
pub open spec fn all_digits(s: Seq<char>) -> bool {
    forall|i: int| 0 <= i < s.len() ==> is_digit(#[trigger] s[i])
}

/// The values of the digits of `s`.
pub open spec fn digit_values(s: Seq<char>) -> Seq<u8> {
    Seq::new(s.len(), |i: int| digit_value(s[i]))
}

/// How many characters the sign of `s` takes: one or none.
pub open spec fn sign_len(s: Seq<char>) -> int {
    if s.len() > 0 && (s[0] == '+' || s[0] == '-') {
        1
    } else {
        0
    }
}

/// Where the first point of `s` stands, or the length of `s` if it has none.
pub open spec fn point_index(s: Seq<char>) -> int
    decreases s.len(),
{
    if s.len() == 0 || s[0] == '.' {
        0
    } else {
        1 + point_index(s.skip(1))
    }
}

/// The characters of `s` between its sign and its point.
pub open spec fn whole_part(s: Seq<char>) -> Seq<char> {
    let u = s.skip(sign_len(s));
    u.take(point_index(u))
}

/// The characters of `s` behind its point.
pub open spec fn fraction_part(s: Seq<char>) -> Seq<char> {
    let u = s.skip(sign_len(s));
    if point_index(u) < u.len() {
        u.skip(point_index(u) + 1)
    } else {
        Seq::empty()
    }
}

/// Whether `s` is written as a decimal: both parts hold digits only, and
/// there is at least one digit.
pub open spec fn decimal_syntax(s: Seq<char>) -> bool {
    &&& all_digits(whole_part(s))
    &&& all_digits(fraction_part(s))
    &&& whole_part(s).len() + fraction_part(s).len() > 0
}

/// A decimal number: `numerator / 10^scale`.
pub struct DecimalValue {
    pub numerator: int,
    pub scale: nat,
}

impl DecimalValue {
    /// `floor(self * 10^places)`.
    pub open spec fn scaled_floor(self, places: nat) -> int {
        (self.numerator * pow10(places)) / (pow10(self.scale) as int)
    }

    /// Whether `self <= other` as numbers.
    pub open spec fn le(self, other: DecimalValue) -> bool {
        self.numerator * pow10(other.scale) <= other.numerator * pow10(self.scale)
    }

    /// Whether the number is below zero.
    pub open spec fn is_negative(self) -> bool {
        self.numerator < 0
    }
}

/// The number that the decimal text `s` writes, where `decimal_syntax(s)`.
pub open spec fn decimal_value(s: Seq<char>) -> DecimalValue {
    let magnitude = number_of(digit_values(whole_part(s) + fraction_part(s))) as int;
    DecimalValue {
        numerator: if s.len() > 0 && s[0] == '-' {
            -magnitude
        } else {
            magnitude
        },
        scale: fraction_part(s).len(),
    }
}

/// `pow10` is never zero.
pub proof fn lemma_pow10_positive(n: nat)
    ensures
        pow10(n) > 0,
    decreases n,
{
    if n > 0 {
        lemma_pow10_positive((n - 1) as nat);
    }
}

/// `10^(a + b) == 10^a * 10^b`.
pub proof fn lemma_pow10_adds(a: nat, b: nat)
    ensures
        pow10(a + b) == pow10(a) * pow10(b),
    decreases a,
{
    if a > 0 {
        lemma_pow10_adds((a - 1) as nat, b);
        assert(10 * (pow10((a - 1) as nat) * pow10(b)) == (10 * pow10((a - 1) as nat)) * pow10(b))
            by (nonlinear_arith);
    } else {
        assert(pow10(a) * pow10(b) == pow10(b)) by (nonlinear_arith)
            requires
                pow10(a) == 1,
        ;
    }
}

/// Appending a digit multiplies by ten and adds the digit.
pub proof fn lemma_number_push(digits: Seq<u8>, d: u8)
    ensures
        number_of(digits.push(d)) == number_of(digits) * 10 + d as nat,
{
    assert(digits.push(d).drop_last() =~= digits);
}

/// Where the point of `u` stands, found by looking from the front.
proof fn lemma_point_index(u: Seq<char>, p: int)
    requires
        0 <= p <= u.len(),
        forall|k: int| 0 <= k < p ==> u[k] != '.',
        p == u.len() || u[p] == '.',
    ensures
        point_index(u) == p,
    decreases p,
{
    if p > 0 {
        let rest = u.skip(1);
        assert forall|k: int| 0 <= k < p - 1 implies rest[k] != '.' by {}
        lemma_point_index(rest, p - 1);
    }
}

/// The point is within the text, and no point stands before it.
proof fn lemma_point_index_bounds(u: Seq<char>)
    ensures
        0 <= point_index(u) <= u.len(),
        forall|k: int| 0 <= k < point_index(u) ==> u[k] != '.',
        point_index(u) == u.len() || u[point_index(u)] == '.',
    decreases u.len(),
{
    if !(u.len() == 0 || u[0] == '.') {
        let rest = u.skip(1);
        lemma_point_index_bounds(rest);
        assert forall|k: int| 0 <= k < point_index(u) implies u[k] != '.' by {
            if k > 0 {
                assert(u[k] == rest[k - 1]);
            }
        }
    }
}

/// A decimal number read from text, kept exactly.
pub struct Decimal {
    negative: bool,
    digits: Vec<u8>,
    scale: usize,
}

impl View for Decimal {
    type V = DecimalValue;

    closed spec fn view(&self) -> DecimalValue {
        DecimalValue {
            numerator: if self.negative {
                -(number_of(self.digits@) as int)
            } else {
                number_of(self.digits@) as int
            },
            scale: self.scale as nat,
        }
    }
}

impl Decimal {
    #[verifier::type_invariant]
    spec fn well_formed(self) -> bool {
        &&& self.scale <= self.digits@.len()
        &&& forall|i: int| 0 <= i < self.digits@.len() ==> #[trigger] self.digits@[i] <= 9
        &&& self.negative ==> number_of(self.digits@) > 0
    }

    /// Reads a decimal from text. Gives `None` exactly where the text is not
    /// written as a decimal.
    pub fn parse(text: &str) -> (r: Option<Decimal>)
        ensures
            r is Some <==> decimal_syntax(text@),
            r is Some ==> r->Some_0@ == decimal_value(text@),
    {
        let ghost s = text@;
        let ghost sl = sign_len(s);
        let ghost u = s.skip(sl);
        if !text.is_ascii() {
            proof {
                lemma_syntax_is_ascii(s);
            }
            return None;
        }
        let bytes = text.as_bytes();
        proof {
            is_ascii_spec_bytes(text);
        }
        let n = bytes.len();
        let mut i: usize = 0;
        let mut minus = false;
        if n > 0 && (bytes[0] == PLUS || bytes[0] == MINUS) {
            minus = bytes[0] == MINUS;
            i = 1;
        }
        let start = i;
        let mut digits: Vec<u8> = Vec::new();
        let mut nonzero = false;
        while i < n && bytes[i] != POINT
            invariant
                start <= i <= n,
                s == text@,
                n == s.len(),
                n == bytes@.len(),
                start == sign_len(s),
                u == s.skip(start as int),
                bytes@ =~= Seq::new(s.len(), |k: int| s[k] as u8),
                is_ascii_chars(s),
                forall|k: int| start <= k < i ==> s[k] != '.',
                all_digits(s.subrange(start as int, i as int)),
                digits@ =~= digit_values(s.subrange(start as int, i as int)),
                forall|k: int| 0 <= k < digits@.len() ==> #[trigger] digits@[k] <= 9,
                nonzero == (number_of(digits@) > 0),
            decreases n - i,
        {
            let b = bytes[i];
            if b < ZERO || b > NINE {
                proof {
                    lemma_point_index_bounds(u);
                    // the offending character stands before the point
                    assert(whole_part(s)[i - start] == s[i as int]);
                }
                return None;
            }
            proof {
                lemma_number_push(digits@, (b - ZERO) as u8);
                assert(s.subrange(start as int, i + 1).drop_last() =~= s.subrange(
                    start as int,
                    i as int,
                ));
            }
            digits.push(b - ZERO);
            if b != ZERO {
                nonzero = true;
            }
            i += 1;
        }
        let point = i;
        proof {
            lemma_point_index(u, point - start);
        }
        let mut scale: usize = 0;
        if i < n {
            i += 1;
            let first = i;
            while i < n
                invariant
                    first <= i <= n,
                    first == point + 1,
                    start <= point,
                    s == text@,
                    n == s.len(),
                    n == bytes@.len(),
                    bytes@ =~= Seq::new(s.len(), |k: int| s[k] as u8),
                    is_ascii_chars(s),
                    whole_part(s) =~= s.subrange(start as int, point as int),
                    fraction_part(s) =~= s.subrange(first as int, n as int),
                    all_digits(whole_part(s)),
                    all_digits(s.subrange(first as int, i as int)),
                    scale == i - first,
                    digits@ =~= digit_values(
                        whole_part(s) + s.subrange(first as int, i as int),
                    ),
                    forall|k: int| 0 <= k < digits@.len() ==> #[trigger] digits@[k] <= 9,
                    nonzero == (number_of(digits@) > 0),
                decreases n - i,
            {
                let b = bytes[i];
                if b < ZERO || b > NINE {
                    proof {
                        assert(fraction_part(s)[i - first] == s[i as int]);
                    }
                    return None;
                }
                proof {
                    lemma_number_push(digits@, (b - ZERO) as u8);
                    assert(s.subrange(first as int, i + 1).drop_last() =~= s.subrange(
                        first as int,
                        i as int,
                    ));
                }
                digits.push(b - ZERO);
                if b != ZERO {
                    nonzero = true;
                }
                scale += 1;
                i += 1;
            }
        }
        assert(digits@ =~= digit_values(whole_part(s) + fraction_part(s)));
        if digits.len() == 0 {
            return None;
        }
        Some(Decimal { negative: minus && nonzero, digits, scale })
    }
}

/// A text with a character beyond ASCII is not written as a decimal.
proof fn lemma_syntax_is_ascii(s: Seq<char>)
    requires
        !is_ascii_chars(s),
    ensures
        !decimal_syntax(s),
{
    let i = choose|i: int| 0 <= i < s.len() && !('\0' <= #[trigger] s[i] <= '\u{7f}');
    let sl = sign_len(s);
    let u = s.skip(sl);
    lemma_point_index_bounds(u);
    let p = point_index(u);
    if i - sl < p {
        assert(whole_part(s)[i - sl] == s[i]);
    } else {
        assert(fraction_part(s)[i - sl - p - 1] == s[i]);
    }
}

/// `v` brought into the range of `u64`: zero below it, the largest value
/// above it.
pub open spec fn clamp_u64(v: int) -> u64 {
    if v < 0 {
        0
    } else if v > u64::MAX {
        u64::MAX
    } else {
        v as u64
    }
}

/// Cutting `j` digits off the end divides by `10^j`, rounding down.
proof fn lemma_number_take(digits: Seq<u8>, j: nat)
    requires
        j <= digits.len(),
        forall|i: int| 0 <= i < digits.len() ==> #[trigger] digits[i] <= 9,
    ensures
        number_of(digits.take(digits.len() - j)) == number_of(digits) as int / (pow10(j) as int),
    decreases j,
{
    if j == 0 {
        assert(digits.take(digits.len() as int) =~= digits);
        assert(pow10(0) == 1);
    } else {
        let shorter = digits.drop_last();
        let rest = (j - 1) as nat;
        assert(shorter.take(shorter.len() - rest) =~= digits.take(digits.len() - j));
        lemma_number_take(shorter, rest);
        lemma_pow10_positive(rest);
        let x = number_of(digits) as int;
        lemma_fundamental_div_mod_converse(x, 10, number_of(shorter) as int, digits.last() as int);
        lemma_div_denominator(x, 10, pow10(rest) as int);
    }
}

/// The floor of a scaled number that is not negative, read off its digits:
/// digits beyond the wanted places are cut, missing places are filled with
/// zeros.
proof fn lemma_scaled_floor_digits(digits: Seq<u8>, scale: nat, places: nat)
    requires
        scale <= digits.len(),
        forall|i: int| 0 <= i < digits.len() ==> #[trigger] digits[i] <= 9,
    ensures
        (DecimalValue { numerator: number_of(digits) as int, scale }).scaled_floor(places) == ({
            let cut = if scale > places {
                scale - places
            } else {
                0
            };
            let pad = if places > scale {
                (places - scale) as nat
            } else {
                0
            };
            number_of(digits.take(digits.len() - cut)) * pow10(pad)
        }),
{
    let n = number_of(digits) as int;
    lemma_pow10_positive(scale);
    lemma_pow10_positive(places);
    if scale > places {
        let cut = (scale - places) as nat;
        lemma_pow10_positive(cut);
        lemma_pow10_adds(places, cut);
        lemma_number_take(digits, cut);
        let pk = pow10(places) as int;
        let pc = pow10(cut) as int;
        assert(n * pk >= 0) by (nonlinear_arith)
            requires
                n >= 0,
                pk > 0,
        ;
        lemma_div_denominator(n * pk, pk, pc);
        lemma_div_by_multiple(n, pk);
        assert(number_of(digits.take(digits.len() - cut)) * pow10(0) == number_of(
            digits.take(digits.len() - cut),
        )) by (nonlinear_arith)
            requires
                pow10(0) == 1,
        ;
    } else {
        let pad = (places - scale) as nat;
        lemma_pow10_adds(pad, scale);
        let pp = pow10(pad) as int;
        let ps = pow10(scale) as int;
        assert(n * (pp * ps) == (n * pp) * ps) by (nonlinear_arith);
        assert(n * pp >= 0) by (nonlinear_arith)
            requires
                n >= 0,
                pp >= 0,
        ;
        lemma_div_by_multiple(n * pp, ps);
        assert(digits.take(digits.len() as int) =~= digits);
    }
}

/// A number below zero stays below zero when divided by a positive one,
/// rounding down.
proof fn lemma_negative_floor(x: int, d: int)
    requires
        x < 0,
        d > 0,
    ensures
        x / d < 0,
{
    lemma_fundamental_div_mod(x, d);
    lemma_mod_bound(x, d);
    if x / d >= 0 {
        assert(d * (x / d) >= 0) by (nonlinear_arith)
            requires
                d > 0,
                x / d >= 0,
        ;
    }
}

impl DecimalValue {
    /// Scaling and rounding down keeps the order of numbers.
    pub proof fn lemma_scaled_floor_monotonic(self, other: DecimalValue, places: nat)
        requires
            self.le(other),
        ensures
            self.scaled_floor(places) <= other.scaled_floor(places),
    {
        let k = pow10(places) as int;
        let p = pow10(self.scale) as int;
        let q = pow10(other.scale) as int;
        lemma_pow10_positive(places);
        lemma_pow10_positive(self.scale);
        lemma_pow10_positive(other.scale);
        let a = self.numerator * k;
        let b = other.numerator * k;
        let m = a / p;
        assert(a * q <= b * p) by (nonlinear_arith)
            requires
                self.numerator * q <= other.numerator * p,
                a == self.numerator * k,
                b == other.numerator * k,
                k > 0,
        ;
        lemma_fundamental_div_mod(a, p);
        lemma_mod_bound(a, p);
        assert(m * q <= b) by (nonlinear_arith)
            requires
                a == p * m + a % p,
                0 <= a % p,
                a * q <= b * p,
                p > 0,
                q > 0,
        ;
        lemma_div_is_ordered(m * q, b, q);
        lemma_div_multiples_vanish(m, q);
        assert(m * q == q * m) by (nonlinear_arith);
    }

    /// A number below zero has a floor below zero, at any scale.
    pub proof fn lemma_negative_scaled_floor(self, places: nat)
        requires
            self.is_negative(),
        ensures
            self.scaled_floor(places) < 0,
    {
        lemma_pow10_positive(places);
        lemma_pow10_positive(self.scale);
        let k = pow10(places) as int;
        assert(self.numerator * k < 0) by (nonlinear_arith)
            requires
                self.numerator < 0,
                k > 0,
        ;
        lemma_negative_floor(self.numerator * k, pow10(self.scale) as int);
    }

    /// A number that is not below zero has a floor that is not below zero.
    pub proof fn lemma_non_negative_scaled_floor(self, places: nat)
        requires
            !self.is_negative(),
        ensures
            self.scaled_floor(places) >= 0,
    {
        lemma_pow10_positive(places);
        lemma_pow10_positive(self.scale);
        let k = pow10(places) as int;
        assert(self.numerator * k >= 0) by (nonlinear_arith)
            requires
                self.numerator >= 0,
                k > 0,
        ;
        lemma_div_basics_4(self.numerator * k, pow10(self.scale) as int);
    }
}

impl Decimal {
    /// Whether the number is below zero.
    pub fn is_negative(&self) -> (r: bool)
        ensures
            r == self@.is_negative(),
    {
        proof {
            use_type_invariant(self);
        }
        self.negative
    }

    /// `floor(self * 10^places)`, brought into the range of `u64`.
    pub fn scaled_floor_saturating(&self, places: u8) -> (r: u64)
        ensures
            r == clamp_u64(self@.scaled_floor(places as nat)),
    {
        proof {
            use_type_invariant(self);
        }
        if self.negative {
            proof {
                self@.lemma_negative_scaled_floor(places as nat);
            }
            return 0;
        }
        let n = self.digits.len();
        let places_wide: usize = places as usize;
        let cut: usize = if self.scale > places_wide {
            self.scale - places_wide
        } else {
            0
        };
        let pad: usize = if places_wide > self.scale {
            places_wide - self.scale
        } else {
            0
        };
        let keep: usize = n - cut;
        let ghost ds = self.digits@;
        let mut acc: u64 = 0;
        let mut over = false;
        let mut i: usize = 0;
        while i < keep
            invariant
                i <= keep <= n,
                n == ds.len(),
                ds == self.digits@,
                forall|k: int| 0 <= k < ds.len() ==> #[trigger] ds[k] <= 9,
                over ==> number_of(ds.take(i as int)) > u64::MAX,
                !over ==> acc == number_of(ds.take(i as int)),
            decreases keep - i,
        {
            let d = self.digits[i];
            proof {
                assert(ds.take(i + 1).drop_last() =~= ds.take(i as int));
            }
            if !over {
                let wide: u128 = acc as u128 * 10 + d as u128;
                if wide > u64::MAX as u128 {
                    over = true;
                } else {
                    acc = wide as u64;
                }
            }
            i += 1;
        }
        let ghost kept = number_of(ds.take(keep as int));
        let mut j: usize = 0;
        proof {
            assert(kept * pow10(0) == kept) by (nonlinear_arith)
                requires
                    pow10(0) == 1,
            ;
        }
        while j < pad
            invariant
                j <= pad,
                over ==> kept * pow10(j as nat) > u64::MAX,
                !over ==> acc == kept * pow10(j as nat),
            decreases pad - j,
        {
            proof {
                assert(kept * pow10((j + 1) as nat) == (kept * pow10(j as nat)) * 10)
                    by (nonlinear_arith)
                    requires
                        pow10((j + 1) as nat) == 10 * pow10(j as nat),
                ;
            }
            if !over {
                let wide: u128 = acc as u128 * 10;
                if wide > u64::MAX as u128 {
                    over = true;
                } else {
                    acc = wide as u64;
                }
            }
            j += 1;
        }
        proof {
            lemma_scaled_floor_digits(ds, self.scale as nat, places as nat);
        }
        if over {
            u64::MAX
        } else {
            acc
        }
    }
}

} // verus!
