//! Text: decimal numerals and case folding.

use vstd::prelude::*;
use vstd::string::*;

verus! {

/// What `to_lowercase` returns for a text.
pub uninterp spec fn lowercase_of(text: Seq<char>) -> Seq<char>;

/// Whether a character is one of the ten decimal digits.
pub open spec fn is_digit(c: char) -> bool {
    '0' <= c && c <= '9'
}

/// Whether a text is made of decimal digits only.
pub open spec fn all_digits(text: Seq<char>) -> bool {
    forall|i: int| 0 <= i < text.len() ==> is_digit(#[trigger] text[i])
}

/// The number that a decimal digit stands for.
pub open spec fn digit_value(c: char) -> nat {
    (c as nat - '0' as nat) as nat
}

/// The number that a run of decimal digits stands for; 0 for the empty run.
pub open spec fn digits_value(digits: Seq<char>) -> nat
    decreases digits.len(),
{
    if digits.len() == 0 {
        0
    } else {
        digits_value(digits.drop_last()) * 10 + digit_value(digits.last())
    }
}

/// The digits of a numeral: the text without one leading plus sign.
pub open spec fn numeral_digits(text: Seq<char>) -> Seq<char> {
    if text.len() > 0 && text[0] == '+' {
        text.subrange(1, text.len() as int)
    } else {
        text
    }
}

/// The number that a text denotes as a decimal numeral: an optional plus sign,
/// then one digit or more, standing for a number that fits 64 bits. `None` for
/// any other text.
pub open spec fn decimal_value(text: Seq<char>) -> Option<u64> {
    let digits = numeral_digits(text);
    if digits.len() > 0 && all_digits(digits) && digits_value(digits) <= u64::MAX {
        Some(digits_value(digits) as u64)
    } else {
        None
    }
}

/// Folds a text to lower case.
///
/// Calls `str::to_lowercase`. Believed: the result is the lower case of the
/// text, and a decimal numeral, which holds no cased character, comes back
/// unchanged.
#[verifier::external_body]
pub(crate) fn to_lowercase(text: &str) -> (folded: String)
    ensures
        folded@ == lowercase_of(text@),
        decimal_value(text@) is Some ==> folded@ == text@,
{
    text.to_lowercase()
}

/// The character of a decimal digit; `'0'` where the number is no digit.
pub open spec fn digit_char(digit: nat) -> char {
    if digit == 1 {
        '1'
    } else if digit == 2 {
        '2'
    } else if digit == 3 {
        '3'
    } else if digit == 4 {
        '4'
    } else if digit == 5 {
        '5'
    } else if digit == 6 {
        '6'
    } else if digit == 7 {
        '7'
    } else if digit == 8 {
        '8'
    } else if digit == 9 {
        '9'
    } else {
        '0'
    }
}

/// The decimal numeral of a number: its digits, most significant first, with
/// no sign and no leading zero (the numeral of 0 is `0`).
pub open spec fn decimal_digits(number: nat) -> Seq<char>
    decreases number,
{
    if number < 10 {
        seq![digit_char(number)]
    } else {
        decimal_digits(number / 10).push(digit_char(number % 10))
    }
}

/// The numeral of a number is a run of one digit or more.
pub proof fn lemma_decimal_digits_shape(number: nat)
    ensures
        decimal_digits(number).len() > 0,
        all_digits(decimal_digits(number)),
    decreases number,
{
    if number >= 10 {
        lemma_decimal_digits_shape(number / 10);
    }
}

/// The numeral of a number stands for that number.
pub proof fn lemma_decimal_digits_value(number: nat)
    ensures
        digits_value(decimal_digits(number)) == number,
    decreases number,
{
    let digits = decimal_digits(number);
    if number < 10 {
        assert(digits_value(digits.drop_last()) == 0);
    } else {
        lemma_decimal_digits_value(number / 10);
        assert(digits.drop_last() =~= decimal_digits(number / 10));
    }
}

/// Reading a number's numeral gives the number back.
pub proof fn lemma_decimal_round_trip(number: u64)
    ensures
        decimal_value(decimal_digits(number as nat)) == Some(number),
{
    lemma_decimal_digits_shape(number as nat);
    lemma_decimal_digits_value(number as nat);
}

/// A run of digits stands for at least as much as any run that it begins
/// with.
pub proof fn lemma_digits_value_grows(digits: Seq<char>, len: int)
    requires
        0 <= len <= digits.len(),
    ensures
        digits_value(digits.subrange(0, len)) <= digits_value(digits),
    decreases digits.len() - len,
{
    if len == digits.len() {
        assert(digits.subrange(0, len) =~= digits);
    } else {
        lemma_digits_value_grows(digits.drop_last(), len);
        assert(digits.drop_last().subrange(0, len) =~= digits.subrange(0, len));
    }
}

/// The text of one decimal digit.
fn digit_text(digit: u64) -> (text: &'static str)
    requires
        digit < 10,
    ensures
        text@ == seq![digit_char(digit as nat)],
{
    proof {
        reveal_strlit("0");
        reveal_strlit("1");
        reveal_strlit("2");
        reveal_strlit("3");
        reveal_strlit("4");
        reveal_strlit("5");
        reveal_strlit("6");
        reveal_strlit("7");
        reveal_strlit("8");
        reveal_strlit("9");
    }
    let text = if digit == 0 {
        "0"
    } else if digit == 1 {
        "1"
    } else if digit == 2 {
        "2"
    } else if digit == 3 {
        "3"
    } else if digit == 4 {
        "4"
    } else if digit == 5 {
        "5"
    } else if digit == 6 {
        "6"
    } else if digit == 7 {
        "7"
    } else if digit == 8 {
        "8"
    } else {
        "9"
    };
    text
}

/// Writes a number as its decimal numeral.
pub fn decimal_string(number: u64) -> (text: String)
    ensures
        text@ == decimal_digits(number as nat),
        decimal_value(text@) == Some(number),
    decreases number,
{
    proof {
        lemma_decimal_round_trip(number);
    }
    if number < 10 {
        digit_text(number).to_owned()
    } else {
        let mut text = decimal_string(number / 10);
        let last = digit_text(number % 10);
        text.append(last);
        text
    }
}

/// Reads a decimal numeral: an optional plus sign, then one digit or more.
/// `None` for any other text, and for a numeral that does not fit 64 bits.
pub fn parse_decimal(text: &str) -> (value: Option<u64>)
    ensures
        value == decimal_value(text@),
{
    let ghost digits = numeral_digits(text@);
    if !text.is_ascii() {
        proof {
            if all_digits(digits) {
                assert forall|i: int| 0 <= i < text@.len() implies '\0' <= #[trigger] text@[i]
                    <= '\u{7f}' by {
                    if text@.len() > 0 && text@[0] == '+' && i > 0 {
                        assert(is_digit(digits[i - 1]));
                    }
                }
            }
        }
        return None;
    }
    let bytes = text.as_bytes();
    proof {
        is_ascii_spec_bytes(text);
    }
    let len = bytes.len();
    let start: usize = if len > 0 && bytes[0] == 43 {
        1
    } else {
        0
    };
    if start == len {
        return None;
    }
    let mut value: u64 = 0;
    let mut at: usize = start;
    while at < len
        invariant
            start <= at <= len,
            len == bytes@.len(),
            len == text@.len(),
            digits == numeral_digits(text@),
            digits == text@.subrange(start as int, len as int),
            forall|i: int| 0 <= i < len ==> #[trigger] bytes@[i] == text@[i] as u8,
            vstd::utf8::is_ascii_chars(text@),
            all_digits(digits.subrange(0, at - start)),
            value == digits_value(digits.subrange(0, at - start)),
        decreases len - at,
    {
        let byte = bytes[at];
        let ghost seen = digits.subrange(0, at - start);
        let ghost next = digits.subrange(0, at - start + 1);
        assert(next.drop_last() =~= seen);
        let ghost c = text@[at as int];
        assert(digits[at - start] == c);
        if byte < 48 || byte > 57 {
            return None;
        }
        let digit: u64 = (byte - 48) as u64;
        proof {
            lemma_digits_value_grows(digits, at - start + 1);
        }
        match value.checked_mul(10) {
            None => {
                return None;
            },
            Some(shifted) => match shifted.checked_add(digit) {
                None => {
                    return None;
                },
                Some(sum) => {
                    value = sum;
                },
            },
        }
        at = at + 1;
        assert forall|i: int| 0 <= i < next.len() implies is_digit(#[trigger] next[i]) by {
            if i < seen.len() {
                assert(next[i] == seen[i]);
            }
        }
    }
    assert(digits.subrange(0, at - start) =~= digits);
    Some(value)
}

} // verus!
