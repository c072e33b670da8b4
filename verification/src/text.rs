//! Text handling shared by the engine: comparison, case mapping, removal of
//! spaces, and unsigned decimal numerals in both directions.

use vstd::prelude::*;
use vstd::std_specs::iter::IteratorSpec;

verus! {

/// The upper-cased form of a text as Unicode defines it. It depends on the
/// text alone and may have another number of characters than the text.
pub uninterp spec fn uppercase_of(text: Seq<char>) -> Seq<char>;

/// The lower-cased form of a text as Unicode defines it. It depends on the
/// text alone and may have another number of characters than the text.
pub uninterp spec fn lowercase_of(text: Seq<char>) -> Seq<char>;

/// Calls `str::to_uppercase` of the standard library.
///
/// Trusted, not proved: the result is the upper-cased form of the argument.
/// The mapping itself is Unicode's and is not spelled out here; the contract
/// only gives it a name.
#[verifier::external_body]
pub(crate) fn to_uppercase(text: &str) -> (upper: String)
    ensures
        upper@ == uppercase_of(text@),
{
    text.to_uppercase()
}

/// Calls `str::to_lowercase` of the standard library.
///
/// Trusted, not proved: the result is the lower-cased form of the argument.
/// The mapping itself is Unicode's and is not spelled out here; the contract
/// only gives it a name.
#[verifier::external_body]
pub(crate) fn to_lowercase(text: &str) -> (lower: String)
    ensures
        lower@ == lowercase_of(text@),
{
    text.to_lowercase()
}

/// Calls `String::push` of the standard library.
///
/// Trusted, not proved: the character is appended at the end and nothing else
/// changes.
#[verifier::external_body]
pub(crate) fn push_char(text: &mut String, c: char)
    ensures
        final(text)@ == old(text)@.push(c),
{
    text.push(c);
}

/// Whether two texts hold the same characters in the same order.
pub fn str_equals(a: &str, b: &str) -> (same: bool)
    ensures
        same == (a@ == b@),
{
    let mut left = a.chars();
    let mut right = b.chars();
    let ghost mut k: int = 0;
    loop
        invariant
            0 <= k <= a@.len(),
            k <= b@.len(),
            a@.take(k) == b@.take(k),
            left.remaining() == a@.skip(k),
            right.remaining() == b@.skip(k),
        decreases a@.len() - k,
    {
        let x = left.next();
        let y = right.next();
        match (x, y) {
            (Some(c), Some(d)) => {
                if c != d {
                    return false;
                }
                proof {
                    k = k + 1;
                }
            },
            (None, None) => {
                proof {
                    assert(a@.take(k) =~= a@);
                    assert(b@.take(k) =~= b@);
                }
                return true;
            },
            _ => {
                return false;
            },
        }
    }
}

/// A text with every space character taken out; the other characters keep
/// their order.
pub open spec fn without_spaces(text: Seq<char>) -> Seq<char> {
    text.filter(|c: char| c != ' ')
}

/// Removes every space character from a text.
pub fn strip_spaces(text: &str) -> (stripped: String)
    ensures
        stripped@ == without_spaces(text@),
{
    let mut out = String::new();
    let mut rest = text.chars();
    let ghost mut k: int = 0;
    loop
        invariant
            0 <= k <= text@.len(),
            rest.remaining() == text@.skip(k),
            out@ == without_spaces(text@.take(k)),
        decreases text@.len() - k,
    {
        match rest.next() {
            Some(c) => {
                proof {
                    assert(text@.take(k + 1).drop_last() =~= text@.take(k));
                    reveal(Seq::filter);
                    k = k + 1;
                }
                if c != ' ' {
                    push_char(&mut out, c);
                }
            },
            None => {
                proof {
                    assert(text@.take(k) =~= text@);
                }
                return out;
            },
        }
    }
}

/// Whether a character is one of the ten decimal digits.
pub open spec fn is_digit(c: char) -> bool {
    '0' <= c && c <= '9'
}

/// The value of a decimal digit, and 0 for any other character.
pub open spec fn digit_value(c: char) -> nat {
    if is_digit(c) {
        (c as u32 - 48) as nat
    } else {
        0
    }
}

/// The number that a run of decimal digits denotes, most significant digit
/// first. The empty run denotes 0.
pub open spec fn digits_value(digits: Seq<char>) -> nat
    decreases digits.len(),
{
    if digits.len() == 0 {
        0
    } else {
        digits_value(digits.drop_last()) * 10 + digit_value(digits.last())
    }
}

/// Whether every character of a text is a decimal digit.
pub open spec fn all_digits(text: Seq<char>) -> bool {
    forall|i: int| 0 <= i < text.len() ==> is_digit(#[trigger] text[i])
}

/// A numeral without its optional leading plus sign.
pub open spec fn unsigned_part(text: Seq<char>) -> Seq<char> {
    if text.len() > 0 && text[0] == '+' {
        text.skip(1)
    } else {
        text
    }
}

/// The number that an unsigned decimal numeral denotes: an optional plus
/// sign followed by one or more decimal digits, whose value fits in 64 bits.
/// Any other text denotes nothing.
pub open spec fn decimal_of(text: Seq<char>) -> Option<u64> {
    let digits = unsigned_part(text);
    if digits.len() > 0 && all_digits(digits) && digits_value(digits) <= u64::MAX {
        Some(digits_value(digits) as u64)
    } else {
        None
    }
}

/// A prefix of a run of digits never denotes more than the whole run.
pub proof fn lemma_digits_value_prefix(digits: Seq<char>, k: int)
    requires
        0 <= k <= digits.len(),
    ensures
        digits_value(digits.take(k)) <= digits_value(digits),
    decreases digits.len() - k,
{
    if k == digits.len() {
        assert(digits.take(k) =~= digits);
    } else {
        lemma_digits_value_prefix(digits.drop_last(), k);
        assert(digits.drop_last().take(k) =~= digits.take(k));
    }
}

/// Reads an unsigned decimal numeral.
pub fn parse_decimal(text: &str) -> (value: Option<u64>)
    ensures
        value == decimal_of(text@),
{
    let mut rest = text.chars();
    let ghost digits = unsigned_part(text@);
    let ghost mut k: int = 0;
    let mut total: u64 = 0;
    let mut at_start = true;
    let mut any_digit = false;
    loop
        invariant
            digits == unsigned_part(text@),
            0 <= k <= digits.len(),
            at_start ==> k == 0 && !any_digit && rest.remaining() == text@,
            !at_start ==> rest.remaining() == digits.skip(k),
            any_digit == (k > 0),
            all_digits(digits.take(k)),
            total == digits_value(digits.take(k)),
        decreases (if at_start { 1int } else { 0int }) + digits.len() - k,
    {
        let next = rest.next();
        match next {
            None => {
                proof {
                    assert(digits.take(k) =~= digits);
                }
                return if any_digit {
                    Some(total)
                } else {
                    None
                };
            },
            Some(c) => {
                if at_start && c == '+' {
                    at_start = false;
                } else {
                    proof {
                        assert(digits.take(k + 1).drop_last() =~= digits.take(k));
                    }
                    at_start = false;
                    if !('0' <= c && c <= '9') {
                        return None;
                    }
                    let digit: u64 = (c as u32 - 48) as u64;
                    let grown: Option<u64> = match total.checked_mul(10) {
                        Some(shifted) => shifted.checked_add(digit),
                        None => None,
                    };
                    match grown {
                        Some(sum) => {
                            total = sum;
                            any_digit = true;
                            proof {
                                assert(all_digits(digits.take(k + 1))) by {
                                    assert forall|i: int| 0 <= i < k implies is_digit(
                                        #[trigger] digits.take(k + 1)[i],
                                    ) by {
                                        assert(digits.take(k + 1)[i] == digits.take(k)[i]);
                                    }
                                }
                                assert(digits_value(digits.take(k + 1)) == digits_value(
                                    digits.take(k),
                                ) * 10 + digit_value(c));
                                k = k + 1;
                            }
                        },
                        None => {
                            proof {
                                lemma_digits_value_prefix(digits, k + 1);
                            }
                            return None;
                        },
                    }
                }
            },
        }
    }
}

/// The character that writes a decimal digit.
pub open spec fn digit_char(digit: nat) -> char {
    (digit + 48) as u8 as char
}

/// The decimal numeral of a number: no sign, no leading zero, and the single
/// digit `0` for zero.
pub open spec fn decimal_digits(n: nat) -> Seq<char>
    decreases n,
{
    if n < 10 {
        seq![digit_char(n)]
    } else {
        decimal_digits(n / 10).push(digit_char(n % 10))
    }
}

/// Appends one decimal digit to a text.
pub(crate) fn push_digit(out: &mut String, digit: u8)
    requires
        digit < 10,
    ensures
        final(out)@ == old(out)@.push(digit_char(digit as nat)),
{
    push_char(out, (digit + 48u8) as char);
}

/// Appends the decimal numeral of a number to a text.
pub fn push_decimal(out: &mut String, n: u128)
    ensures
        final(out)@ == old(out)@ + decimal_digits(n as nat),
    decreases n,
{
    if n >= 10 {
        push_decimal(out, n / 10);
    }
    push_digit(out, (n % 10) as u8);
}

/// Writes a number as its decimal numeral.
pub fn format_decimal(n: u128) -> (text: String)
    ensures
        text@ == decimal_digits(n as nat),
{
    let mut out = String::new();
    push_decimal(&mut out, n);
    out
}

/// The digit character of a value below ten is a digit and has that value.
pub proof fn lemma_digit_char(digit: nat)
    requires
        digit < 10,
    ensures
        is_digit(digit_char(digit)),
        digit_value(digit_char(digit)) == digit,
        digit_char(digit) != '+',
{
}

/// The decimal numeral of a number is a run of at least one digit that
/// denotes the number.
pub proof fn lemma_decimal_digits(n: nat)
    ensures
        decimal_digits(n).len() > 0,
        all_digits(decimal_digits(n)),
        digits_value(decimal_digits(n)) == n,
        decimal_digits(n)[0] != '+',
    decreases n,
{
    let numeral = decimal_digits(n);
    if n < 10 {
        lemma_digit_char(n);
        assert(digits_value(numeral.drop_last()) == 0);
    } else {
        lemma_decimal_digits(n / 10);
        lemma_digit_char(n % 10);
        assert(numeral.drop_last() =~= decimal_digits(n / 10));
        assert(all_digits(numeral)) by {
            assert forall|i: int| 0 <= i < numeral.len() - 1 implies is_digit(
                #[trigger] numeral[i],
            ) by {
                assert(numeral[i] == decimal_digits(n / 10)[i]);
            }
        }
    }
}

/// Reading the decimal numeral of a number that fits in 64 bits gives the
/// number back.
pub proof fn lemma_decimal_round_trip(n: nat)
    requires
        n <= u64::MAX,
    ensures
        decimal_of(decimal_digits(n)) == Some(n as u64),
{
    lemma_decimal_digits(n);
}

} // verus!
