//! Decimal numbers: the form in which priorities and ratings are held,
//! bounded and written.

use vstd::prelude::*;
use crate::text::{decimal_digits, decimal_string, digit_str, digit_text};

verus! {

/// The number `mantissa / 10^scale`, negated where `negative` is set.
///
/// `scale` is the number of digits written after the decimal point, so
/// `0.8` has mantissa 8 and scale 1, and `0.80` has mantissa 80 and scale 2:
/// both are the same number, and each is written as it was given.
#[derive(Clone, Copy, Debug, PartialEq, Eq, Structural)]
pub struct Decimal {
    pub negative: bool,
    pub mantissa: u128,
    pub scale: u8,
}

/// Ten to the power `exponent`.
pub open spec fn pow10(exponent: nat) -> nat
    decreases exponent,
{
    if exponent == 0 {
        1
    } else {
        10 * pow10((exponent - 1) as nat)
    }
}

/// `mantissa / 10^scale`, rounded down: the digits before the point.
pub open spec fn whole_part(mantissa: nat, scale: nat) -> nat
    decreases scale,
{
    if scale == 0 {
        mantissa
    } else {
        whole_part(mantissa / 10, (scale - 1) as nat)
    }
}

/// The last `scale` decimal digits of `mantissa`, with zeros in front where
/// it has fewer: the digits after the point.
pub open spec fn fraction_text(mantissa: nat, scale: nat) -> Seq<char>
    decreases scale,
{
    if scale == 0 {
        Seq::empty()
    } else {
        fraction_text(mantissa / 10, (scale - 1) as nat) + digit_text(mantissa % 10)
    }
}

/// Whether `c` is one of the digits `0` to `9`.
pub open spec fn is_digit(c: char) -> bool {
    48 <= c as u32 <= 57
}

/// The number that the digit `c` stands for.
pub open spec fn digit_value(c: char) -> nat {
    (c as u32 - 48) as nat
}

/// Whether `text` holds digits only.
pub open spec fn all_digits(text: Seq<char>) -> bool {
    forall|i: int| 0 <= i < text.len() ==> is_digit(#[trigger] text[i])
}

/// The number that a text of digits stands for; 0 for the empty text.
pub open spec fn digits_value(digits: Seq<char>) -> nat
    decreases digits.len(),
{
    if digits.len() == 0 {
        0
    } else {
        digits_value(digits.drop_last()) * 10 + digit_value(digits.last())
    }
}

/// The number of digits with which `text` begins.
pub open spec fn leading_digits(text: Seq<char>) -> nat
    decreases text.len(),
{
    if text.len() > 0 && is_digit(text[0]) {
        1 + leading_digits(text.drop_first())
    } else {
        0
    }
}

/// Whether `text` begins with a minus sign.
pub open spec fn numeral_negative(text: Seq<char>) -> bool {
    text.len() > 0 && text[0] == '-'
}

/// `text` without its minus sign, if it has one.
pub open spec fn numeral_body(text: Seq<char>) -> Seq<char> {
    if numeral_negative(text) {
        text.drop_first()
    } else {
        text
    }
}

/// The digits before the point: those with which the body begins.
pub open spec fn numeral_whole(text: Seq<char>) -> Seq<char> {
    numeral_body(text).take(leading_digits(numeral_body(text)) as int)
}

/// What follows the digits before the point.
pub open spec fn numeral_rest(text: Seq<char>) -> Seq<char> {
    numeral_body(text).skip(leading_digits(numeral_body(text)) as int)
}

/// The digits after the point; none where nothing follows the whole part.
pub open spec fn numeral_fraction(text: Seq<char>) -> Seq<char> {
    if numeral_rest(text).len() == 0 {
        Seq::empty()
    } else {
        numeral_rest(text).drop_first()
    }
}

/// Whether `text` is a decimal numeral: an optional minus sign, one or more
/// digits, and optionally a point followed by one or more digits.
pub open spec fn is_numeral(text: Seq<char>) -> bool {
    &&& numeral_whole(text).len() > 0
    &&& numeral_rest(text).len() > 0 ==> {
        &&& numeral_rest(text)[0] == '.'
        &&& numeral_fraction(text).len() > 0
        &&& all_digits(numeral_fraction(text))
    }
}

/// The number that `text` is a numeral of, where it is one that a
/// [`Decimal`] can hold: its digits make a number within `u128`, at most 255
/// of them after the point.
pub open spec fn parsed(text: Seq<char>) -> Option<Decimal> {
    if is_numeral(text) && digits_value(numeral_whole(text) + numeral_fraction(text)) <= u128::MAX
        && numeral_fraction(text).len() <= u8::MAX {
        Some(
            Decimal {
                negative: numeral_negative(text),
                mantissa: digits_value(numeral_whole(text) + numeral_fraction(text)) as u128,
                scale: numeral_fraction(text).len() as u8,
            },
        )
    } else {
        None
    }
}

pub proof fn lemma_pow10_positive(exponent: nat)
    ensures
        pow10(exponent) > 0,
    decreases exponent,
{
    if exponent > 0 {
        lemma_pow10_positive((exponent - 1) as nat);
    }
}

/// Tells whether `c` is one of the digits `0` to `9`.
fn is_digit_char(c: char) -> (res: bool)
    ensures
        res == is_digit(c),
{
    let code = c as u32;
    48 <= code && code <= 57
}

/// The number read so far, or the fact that it no longer fits.
struct Digits {
    value: u128,
    overflow: bool,
}

impl Digits {
    /// Whether this is what reading `digits` gives.
    spec fn holds(self, digits: Seq<char>) -> bool {
        if self.overflow {
            digits_value(digits) > u128::MAX
        } else {
            self.value == digits_value(digits)
        }
    }
}

/// Reads the digits of `text` from place `from` on, as far as they go,
/// behind the digits `prefix` that were read before. Returns the place of
/// the first character that is no digit (`length` where there is none) and
/// the number read.
fn scan_digits(
    text: &str,
    length: usize,
    from: usize,
    read: Digits,
    Ghost(prefix): Ghost<Seq<char>>,
) -> (res: (usize, Digits))
    requires
        length == text@.len(),
        from <= length,
        read.holds(prefix),
    ensures
        from <= res.0 <= length,
        forall|i: int| from <= i < res.0 ==> is_digit(#[trigger] text@[i]),
        res.0 < length ==> !is_digit(text@[res.0 as int]),
        res.0 - from == leading_digits(text@.skip(from as int)),
        res.1.holds(prefix + text@.subrange(from as int, res.0 as int)),
{
    let mut value = read.value;
    let mut overflow = read.overflow;
    let mut j: usize = from;
    proof {
        assert(prefix + text@.subrange(from as int, from as int) =~= prefix);
    }
    while j < length && is_digit_char(text.get_char(j))
        invariant
            from <= j <= length,
            length == text@.len(),
            forall|i: int| from <= i < j ==> is_digit(#[trigger] text@[i]),
            leading_digits(text@.skip(from as int)) == (j - from) + leading_digits(
                text@.skip(j as int),
            ),
            (Digits { value, overflow }).holds(prefix + text@.subrange(from as int, j as int)),
        decreases length - j,
    {
        let c = text.get_char(j);
        let d = (c as u32 - 48) as u128;
        proof {
            let before = prefix + text@.subrange(from as int, j as int);
            let after = prefix + text@.subrange(from as int, j + 1);
            assert(after.drop_last() =~= before);
            assert(after.last() == c);
            assert(text@.skip(j as int)[0] == c);
            assert(text@.skip(j as int).drop_first() =~= text@.skip(j + 1));
        }
        if !overflow {
            if value > (u128::MAX - d) / 10 {
                overflow = true;
            } else {
                value = value * 10 + d;
            }
        }
        j = j + 1;
    }
    proof {
        if j < length {
            assert(text@.skip(j as int)[0] == text@[j as int]);
        }
    }
    (j, Digits { value, overflow })
}

impl Decimal {
    /// Whether the number is less than zero. Negative zero is not.
    pub open spec fn below_zero(self) -> bool {
        self.negative && self.mantissa > 0
    }

    /// Whether the number is greater than the whole number `bound`.
    pub open spec fn above(self, bound: nat) -> bool {
        !self.negative && self.mantissa > bound * pow10(self.scale as nat)
    }

    /// The number in positional notation: a minus sign where `negative` is
    /// set, the digits before the point, and, where `scale` is not zero, the
    /// point and `scale` digits after it.
    pub open spec fn text(self) -> Seq<char> {
        (if self.negative {
            "-"@
        } else {
            Seq::empty()
        }) + decimal_digits(whole_part(self.mantissa as nat, self.scale as nat)) + (if self.scale
            > 0 {
            "."@ + fraction_text(self.mantissa as nat, self.scale as nat)
        } else {
            Seq::empty()
        })
    }

    /// Reads a decimal numeral such as `0.8`, `-1` or `4.20`. The result is
    /// `None` where `text` is no numeral or holds more digits than a
    /// `Decimal` can.
    pub fn parse(text: &str) -> (res: Option<Decimal>)
        ensures
            res == parsed(text@),
    {
        let n = text.unicode_len();
        let negative = n > 0 && text.get_char(0) == '-';
        let start: usize = if negative {
            1
        } else {
            0
        };
        let ghost body = numeral_body(text@);
        let ghost whole = numeral_whole(text@);
        let ghost rest = numeral_rest(text@);
        let ghost fraction = numeral_fraction(text@);
        proof {
            assert(body == text@.skip(start as int));
            assert(Seq::<char>::empty() + text@.subrange(start as int, start as int)
                =~= Seq::<char>::empty());
        }
        let zero = Digits { value: 0, overflow: false };
        let (j, before_point) = scan_digits(text, n, start, zero, Ghost(Seq::empty()));
        proof {
            assert(whole =~= text@.subrange(start as int, j as int));
            assert(Seq::<char>::empty() + text@.subrange(start as int, j as int) =~= whole);
            assert(rest =~= text@.skip(j as int));
        }
        if j == start {
            return None;
        }
        if j == n {
            proof {
                assert(whole + fraction =~= whole);
            }
            if before_point.overflow {
                return None;
            }
            return Some(Decimal { negative, mantissa: before_point.value, scale: 0 });
        }
        proof {
            assert(rest[0] == text@[j as int]);
        }
        if text.get_char(j) != '.' {
            return None;
        }
        let first: usize = j + 1;
        proof {
            assert(fraction =~= text@.skip(first as int));
            assert(whole + text@.subrange(first as int, first as int) =~= whole);
        }
        if first == n || n - first > 255 {
            return None;
        }
        let (k, all) = scan_digits(text, n, first, before_point, Ghost(whole));
        if k < n {
            proof {
                assert(fraction[k - first] == text@[k as int]);
            }
            return None;
        }
        proof {
            assert(fraction =~= text@.subrange(first as int, n as int));
            assert forall|i: int| 0 <= i < fraction.len() implies is_digit(
                #[trigger] fraction[i],
            ) by {
                assert(fraction[i] == text@[first + i]);
            }
        }
        if all.overflow {
            return None;
        }
        Some(Decimal { negative, mantissa: all.value, scale: (n - first) as u8 })
    }

    /// Tells whether the number is less than zero.
    pub fn is_below_zero(&self) -> (res: bool)
        ensures
            res == self.below_zero(),
    {
        self.negative && self.mantissa > 0
    }

    /// Tells whether the number is greater than `bound`.
    pub fn is_above(&self, bound: u32) -> (res: bool)
        ensures
            res == self.above(bound as nat),
    {
        if self.negative {
            return false;
        }
        let mut rest: u128 = self.mantissa;
        let mut dropped_nonzero = false;
        let mut k: u8 = 0;
        let ghost mut low: nat = 0;
        proof {
            assert(pow10(0) == 1);
            assert(rest * pow10(0) == rest) by (nonlinear_arith)
                requires
                    pow10(0) == 1,
            ;
        }
        while k < self.scale
            invariant
                k <= self.scale,
                self.mantissa == rest * pow10(k as nat) + low,
                low < pow10(k as nat),
                dropped_nonzero == (low > 0),
            decreases self.scale - k,
        {
            let d = rest % 10;
            proof {
                let p = pow10(k as nat);
                let q = (rest / 10) as nat;
                lemma_pow10_positive(k as nat);
                assert(pow10((k + 1) as nat) == 10 * p);
                assert(rest * p == q * (10 * p) + d * p) by (nonlinear_arith)
                    requires
                        rest == 10 * q + d,
                ;
                assert(d * p + low < 10 * p) by (nonlinear_arith)
                    requires
                        d <= 9,
                        low < p,
                ;
                assert((d * p + low > 0) == (d > 0 || low > 0)) by (nonlinear_arith)
                    requires
                        p > 0,
                        d >= 0,
                        low >= 0,
                ;
                low = (d * p + low) as nat;
            }
            if d != 0 {
                dropped_nonzero = true;
            }
            rest = rest / 10;
            k = k + 1;
        }
        proof {
            let p = pow10(self.scale as nat);
            let b = bound as nat;
            lemma_pow10_positive(self.scale as nat);
            assert((rest * p + low > b * p) == (rest > b || (rest == b && low > 0)))
                by (nonlinear_arith)
                requires
                    p > 0,
                    low < p,
                    low >= 0,
                    rest >= 0,
                    b >= 0,
            ;
        }
        rest > bound as u128 || (rest == bound as u128 && dropped_nonzero)
    }

    /// Writes the number in positional notation.
    pub fn to_text(&self) -> (res: String)
        ensures
            res@ == self.text(),
    {
        let mut rest: u128 = self.mantissa;
        let mut fraction = String::new();
        let mut k: u8 = 0;
        while k < self.scale
            invariant
                k <= self.scale,
                whole_part(self.mantissa as nat, self.scale as nat) == whole_part(
                    rest as nat,
                    (self.scale - k) as nat,
                ),
                fraction_text(self.mantissa as nat, self.scale as nat) == fraction_text(
                    rest as nat,
                    (self.scale - k) as nat,
                ) + fraction@,
            decreases self.scale - k,
        {
            let digit = String::from_str(digit_str(rest % 10));
            proof {
                assert(fraction_text(rest as nat, (self.scale - k) as nat) + fraction@
                    == fraction_text((rest / 10) as nat, (self.scale - k - 1) as nat) + (
                digit@ + fraction@));
            }
            fraction = digit.concat(fraction.as_str());
            rest = rest / 10;
            k = k + 1;
        }
        let mut res = if self.negative {
            String::from_str("-")
        } else {
            String::new()
        };
        let whole = decimal_string(rest);
        res.append(whole.as_str());
        if self.scale > 0 {
            res.append(".");
            res.append(fraction.as_str());
        }
        proof {
            assert(res@ == self.text());
        }
        res
    }
}

} // verus!
