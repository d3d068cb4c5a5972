//! Numbers in text.

use super::chars::chars_of;
use vstd::prelude::*;

verus! {

/// The decimal digit of a number below ten.
pub open spec fn digit_char(digit: int) -> char {
    (digit + 48) as char
}

/// A number in decimal digits, without leading zeros.
pub open spec fn decimal(number: nat) -> Seq<char>
    decreases number,
{
    if number < 10 {
        seq![digit_char(number as int)]
    } else {
        decimal(number / 10).push(digit_char((number % 10) as int))
    }
}

/// The number in decimal digits.
pub fn decimal_text(number: u64) -> (text: String)
    ensures
        text@ == decimal(number as nat),
    decreases number,
{
    let digit: u8 = (number % 10) as u8;
    if number < 10 {
        let mut text = String::new();
        text.push((digit + 48) as char);
        proof {
            assert(text@ =~= decimal(number as nat));
        }
        text
    } else {
        let mut text = decimal_text(number / 10);
        text.push((digit + 48) as char);
        text
    }
}

/// The value of a digit in a radix of at most sixteen; letters count in either case.
pub open spec fn digit_value(c: char, radix: int) -> Option<int> {
    let code = c as int;
    let value = if 48 <= code <= 57 {
        code - 48
    } else if 65 <= code <= 70 {
        code - 55
    } else if 97 <= code <= 102 {
        code - 87
    } else {
        16
    };
    if value < radix {
        Some(value)
    } else {
        None
    }
}

/// The value of a text of digits, the last one counting least; none where a character is no
/// digit.
pub open spec fn digits_value(text: Seq<char>, radix: int) -> Option<int>
    decreases text.len(),
{
    if text.len() == 0 {
        Some(0)
    } else {
        match (digits_value(text.drop_last(), radix), digit_value(text.last(), radix)) {
            (Some(value), Some(digit)) => Some(value * radix + digit),
            _ => None,
        }
    }
}

/// The text without the plus sign that may stand before a number.
pub open spec fn without_plus(text: Seq<char>) -> Seq<char> {
    if text.len() > 0 && text[0] == '+' {
        text.drop_first()
    } else {
        text
    }
}

/// The number that a text spells: an optional plus sign and one digit or more, of a value that
/// is at most `max`.
pub open spec fn parsed_number(text: Seq<char>, radix: int, max: int) -> Option<int> {
    let digits = without_plus(text);
    match digits_value(digits, radix) {
        Some(value) => if digits.len() > 0 && value <= max {
            Some(value)
        } else {
            None
        },
        None => None,
    }
}

/// What the error of `str::parse::<u16>` says of a text that it refuses.
pub uninterp spec fn port_error(text: Seq<char>) -> Seq<char>;

/// What the error of `usize::from_str_radix` with radix 16 says of a text that it refuses, on a
/// machine whose `usize` has that many bits.
pub uninterp spec fn hex_error(text: Seq<char>, bits: int) -> Seq<char>;

/// Calls `str::parse::<u16>`: it takes an optional plus sign and decimal digits whose value
/// fits. What the error says is named by [`port_error`].
#[verifier::external_body]
pub(crate) fn parse_u16(text: &str) -> (result: Result<u16, String>)
    ensures
        match result {
            Ok(number) => parsed_number(text@, 10, u16::MAX as int) == Some(number as int),
            Err(message) => parsed_number(text@, 10, u16::MAX as int) is None && message@
                == port_error(text@),
        },
{
    text.parse::<u16>().map_err(|error| error.to_string())
}

/// Calls `usize::from_str_radix` with radix 16: it takes an optional plus sign and hexadecimal
/// digits whose value fits. What the error says is named by [`hex_error`].
#[verifier::external_body]
pub(crate) fn parse_hex(text: &str) -> (result: Result<usize, String>)
    ensures
        match result {
            Ok(number) => parsed_number(text@, 16, usize::MAX as int) == Some(number as int),
            Err(message) => parsed_number(text@, 16, usize::MAX as int) is None && message@
                == hex_error(text@, usize::BITS as int),
        },
{
    usize::from_str_radix(text, 16).map_err(|error| error.to_string())
}

/// A number in decimal digits spells the number.
pub proof fn lemma_decimal_spells(number: nat, max: int)
    requires
        number <= max,
    ensures
        parsed_number(decimal(number), 10, max) == Some(number as int),
        forall|i: int|
            0 <= i < decimal(number).len() ==> '0' <= #[trigger] decimal(number)[i] <= '9',
{
    lemma_decimal_digits(number);
}

proof fn lemma_decimal_digits(number: nat)
    ensures
        decimal(number).len() > 0,
        digits_value(decimal(number), 10) == Some(number as int),
        forall|i: int|
            0 <= i < decimal(number).len() ==> '0' <= #[trigger] decimal(number)[i] <= '9',
    decreases number,
{
    let digit = (number % 10) as int;
    assert(digit_value(digit_char(digit), 10) == Some(digit));
    if number < 10 {
        assert(decimal(number).drop_last() =~= Seq::<char>::empty());
        reveal_with_fuel(digits_value, 2);
    } else {
        lemma_decimal_digits(number / 10);
        assert(decimal(number).drop_last() =~= decimal(number / 10));
    }
}

fn decimal_digit(c: char) -> (digit: Option<u64>)
    ensures
        match digit {
            Some(digit) => digit < 10 && digit_value(c, 10) == Some(digit as int),
            None => digit_value(c, 10) is None,
        },
{
    if '0' <= c && c <= '9' {
        Some((c as u32 - 48) as u64)
    } else {
        None
    }
}

/// A value never shrinks when digits follow.
proof fn lemma_value_grows(text: Seq<char>, count: int)
    requires
        0 <= count <= text.len(),
        digits_value(text, 10) is Some,
    ensures
        digits_value(text.take(count), 10) is Some,
        0 <= digits_value(text.take(count), 10)->0 <= digits_value(text, 10)->0,
    decreases text.len(),
{
    if text.len() == 0 {
        assert(text.take(count) =~= text);
    } else {
        lemma_value_grows(text.drop_last(), text.len() - 1);
        assert(text.drop_last().take(text.len() - 1) =~= text.drop_last());
        if count == text.len() {
            assert(text.take(count) =~= text);
        } else {
            lemma_value_grows(text.drop_last(), count);
            assert(text.drop_last().take(count) =~= text.take(count));
        }
    }
}

/// The number that a text spells in decimal digits, where it fits.
pub fn parse_u64(text: &str) -> (number: Option<u64>)
    ensures
        match number {
            Some(number) => parsed_number(text@, 10, u64::MAX as int) == Some(number as int),
            None => parsed_number(text@, 10, u64::MAX as int) is None,
        },
{
    let chars = chars_of(text);
    let start: usize = if chars.len() > 0 && chars[0] == '+' {
        1
    } else {
        0
    };
    let ghost digits = without_plus(text@);
    proof {
        assert(digits =~= text@.skip(start as int));
    }
    if start == chars.len() {
        return None;
    }
    let mut value: u64 = 0;
    for i in start..chars.len()
        invariant
            chars@ == text@,
            digits == without_plus(text@),
            digits == text@.skip(start as int),
            start <= i <= chars.len(),
            digits_value(digits.take(i - start), 10) == Some(value as int),
    {
        proof {
            assert(digits.take(i - start + 1).drop_last() =~= digits.take(i - start));
            assert(digits.take(i - start + 1).last() == chars@[i as int]);
            if digits_value(digits, 10) is Some {
                lemma_value_grows(digits, i - start + 1);
            }
        }
        match decimal_digit(chars[i]) {
            None => {
                return None;
            },
            Some(digit) => {
                match value.checked_mul(10) {
                    None => {
                        return None;
                    },
                    Some(product) => match product.checked_add(digit) {
                        None => {
                            return None;
                        },
                        Some(sum) => {
                            value = sum;
                        },
                    },
                }
            },
        }
    }
    proof {
        assert(digits.take(chars.len() - start) =~= digits);
    }
    Some(value)
}

/// The number that a text spells is none below zero and none above the largest.
pub proof fn lemma_parsed_number_in_range(text: Seq<char>, max: int)
    ensures
        parsed_number(text, 10, max) is Some ==> 0 <= parsed_number(text, 10, max)->0 <= max,
{
    let digits = without_plus(text);
    if digits_value(digits, 10) is Some {
        lemma_value_grows(digits, digits.len() as int);
        assert(digits.take(digits.len() as int) =~= digits);
    }
}

} // verus!
