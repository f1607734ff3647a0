//! Integers as decimal text, and decimal text as integers.

use crate::lexer::lexer::characters;
use vstd::prelude::*;

verus! {

/// Whether `c` is one of the ten decimal digits.
pub open spec fn is_digit(c: char) -> bool {
    '0' <= c <= '9'
}

/// The number that a decimal digit stands for.
pub open spec fn digit_value(c: char) -> int {
    c as int - '0' as int
}

/// The decimal digit that stands for a number from 0 to 9.
pub open spec fn digit_char(d: int) -> char {
    if d == 0 {
        '0'
    } else if d == 1 {
        '1'
    } else if d == 2 {
        '2'
    } else if d == 3 {
        '3'
    } else if d == 4 {
        '4'
    } else if d == 5 {
        '5'
    } else if d == 6 {
        '6'
    } else if d == 7 {
        '7'
    } else if d == 8 {
        '8'
    } else {
        '9'
    }
}

/// Whether every character of `text` is a decimal digit.
pub open spec fn all_digits(text: Seq<char>) -> bool {
    forall|i: int| 0 <= i < text.len() ==> is_digit(#[trigger] text[i])
}

/// The number that a run of decimal digits stands for, the empty run standing for 0.
pub open spec fn digits_value(text: Seq<char>) -> int
    decreases text.len(),
{
    if text.len() == 0 {
        0
    } else {
        digits_value(text.drop_last()) * 10 + digit_value(text.last())
    }
}

/// The integer that `text` denotes: an optional `+` or `-`, then one or more
/// decimal digits and nothing else. `None` for every other text.
pub open spec fn decimal_value(text: Seq<char>) -> Option<int> {
    let signed = text.len() > 0 && (text[0] == '-' || text[0] == '+');
    let digits = if signed {
        text.skip(1)
    } else {
        text
    };
    if digits.len() == 0 || !all_digits(digits) {
        None
    } else if signed && text[0] == '-' {
        Some(-digits_value(digits))
    } else {
        Some(digits_value(digits))
    }
}

/// The machine integer that `text` denotes, if it denotes one that fits.
pub open spec fn parsed_integer(text: Seq<char>) -> Option<int> {
    match decimal_value(text) {
        Some(value) => if isize::MIN <= value <= isize::MAX {
            Some(value)
        } else {
            None
        },
        None => None,
    }
}

/// The decimal digits of a natural number, without leading zeros; `0` for zero.
pub open spec fn natural_text(n: nat) -> Seq<char>
    decreases n,
{
    if n < 10 {
        seq![digit_char(n as int)]
    } else {
        natural_text(n / 10).push(digit_char((n % 10) as int))
    }
}

/// The decimal text of an integer: a `-` before the digits of a negative one.
pub open spec fn decimal_text(value: int) -> Seq<char> {
    if value < 0 {
        seq!['-'] + natural_text((-value) as nat)
    } else {
        natural_text(value as nat)
    }
}

/// The digits of a number are not negative.
pub proof fn lemma_digits_value_bounds(text: Seq<char>)
    requires
        all_digits(text),
    ensures
        0 <= digits_value(text),
    decreases text.len(),
{
    if text.len() > 0 {
        assert(all_digits(text.drop_last())) by {
            assert forall|i: int| 0 <= i < text.drop_last().len() implies is_digit(
                #[trigger] text.drop_last()[i],
            ) by {
                assert(text.drop_last()[i] == text[i]);
            }
        }
        lemma_digits_value_bounds(text.drop_last());
        assert(is_digit(text.last()));
    }
}

/// A run of digits stands for no less than each of the runs it begins with.
pub proof fn lemma_digits_value_grows(text: Seq<char>, count: int)
    requires
        all_digits(text),
        0 <= count <= text.len(),
    ensures
        all_digits(text.take(count)),
        0 <= digits_value(text.take(count)) <= digits_value(text),
    decreases text.len() - count,
{
    assert(all_digits(text.take(count))) by {
        assert forall|i: int| 0 <= i < text.take(count).len() implies is_digit(
            #[trigger] text.take(count)[i],
        ) by {
            assert(text.take(count)[i] == text[i]);
        }
    }
    lemma_digits_value_bounds(text.take(count));
    if count == text.len() {
        assert(text.take(count) =~= text);
    } else {
        lemma_digits_value_grows(text, count + 1);
        let longer = text.take(count + 1);
        assert(longer.drop_last() =~= text.take(count));
        assert(longer.last() == text[count]);
        assert(is_digit(text[count]));
    }
}

/// The number that a decimal digit stands for, if `c` is one.
fn digit_of(c: char) -> (digit: Option<u8>)
    ensures
        match digit {
            Some(d) => is_digit(c) && d == digit_value(c),
            None => !is_digit(c),
        },
{
    if c >= '0' && c <= '9' {
        let code = c as u32 - '0' as u32;
        Some(code as u8)
    } else {
        None
    }
}

/// The decimal digit that stands for a number from 0 to 9.
fn char_of(digit: u8) -> (c: char)
    requires
        digit < 10,
    ensures
        c == digit_char(digit as int),
{
    if digit == 0 {
        '0'
    } else if digit == 1 {
        '1'
    } else if digit == 2 {
        '2'
    } else if digit == 3 {
        '3'
    } else if digit == 4 {
        '4'
    } else if digit == 5 {
        '5'
    } else if digit == 6 {
        '6'
    } else if digit == 7 {
        '7'
    } else if digit == 8 {
        '8'
    } else {
        '9'
    }
}

/// Reads `text` as a machine integer: an optional sign, then decimal digits
/// and nothing else. `None` for every other text, and for a number that
/// does not fit.
pub fn parse_integer(text: &str) -> (parsed: Option<isize>)
    ensures
        match parsed {
            Some(value) => parsed_integer(text@) == Some(value as int),
            None => parsed_integer(text@) is None,
        },
{
    let chars = characters(text);
    let length = chars.len();
    if length == 0 {
        return None;
    }
    let negative = chars[0] == '-';
    let signed = negative || chars[0] == '+';
    let start: usize = if signed {
        1
    } else {
        0
    };
    let ghost digits = if signed {
        text@.skip(1)
    } else {
        text@
    };
    if start == length {
        return None;
    }
    let limit: u128 = if negative {
        isize::MAX as u128 + 1
    } else {
        isize::MAX as u128
    };
    let mut value: u128 = 0;
    let mut index: usize = start;
    assert(digits.take(0) =~= Seq::empty());
    while index < length
        invariant
            chars@ == text@,
            length == chars.len(),
            start <= index <= length,
            digits.len() == length - start,
            forall|i: int| 0 <= i < digits.len() ==> digits[i] == chars[start + i],
            all_digits(digits.take(index - start)),
            value == digits_value(digits.take(index - start)),
            value <= limit,
            text@.len() > 0,
            negative == (text@[0] == '-'),
            signed == (text@[0] == '-' || text@[0] == '+'),
            digits == if signed {
                text@.skip(1)
            } else {
                text@
            },
            limit == if negative {
                isize::MAX + 1
            } else {
                isize::MAX as int
            },
        decreases length - index,
    {
        let ghost read = digits.take(index - start);
        let ghost longer = digits.take(index - start + 1);
        assert(longer.drop_last() =~= read);
        assert(longer.last() == chars[index as int]);
        match digit_of(chars[index]) {
            None => {
                assert(!all_digits(digits)) by {
                    assert(digits[index - start] == chars[index as int]);
                }
                return None;
            },
            Some(digit) => {
                assert(all_digits(longer)) by {
                    assert forall|i: int| 0 <= i < longer.len() implies is_digit(
                        #[trigger] longer[i],
                    ) by {
                        if i < read.len() {
                            assert(longer[i] == read[i]);
                        }
                    }
                }
                value = value * 10 + digit as u128;
                if value > limit {
                    proof {
                        if all_digits(digits) {
                            lemma_digits_value_grows(digits, index - start + 1);
                        }
                    }
                    return None;
                }
            },
        }
        index = index + 1;
    }
    assert(digits.take(index - start) =~= digits);
    if negative {
        Some((-(value as i128)) as isize)
    } else {
        Some(value as isize)
    }
}

/// The digits of a number, the last one first.
fn reversed_digits(number: u128) -> (digits: Vec<char>)
    ensures
        digits@.reverse() == natural_text(number as nat),
        digits.len() > 0,
{
    let mut digits: Vec<char> = Vec::new();
    let mut rest = number;
    assert(natural_text(rest as nat) + digits@.reverse() =~= natural_text(number as nat));
    while rest >= 10
        invariant
            natural_text(rest as nat) + digits@.reverse() == natural_text(number as nat),
        decreases rest,
    {
        let digit = char_of((rest % 10) as u8);
        let ghost before = digits@;
        digits.push(digit);
        assert(digits@.reverse() =~= seq![digit] + before.reverse());
        assert(natural_text((rest / 10) as nat) + digits@.reverse() =~= natural_text(
            rest as nat,
        ) + before.reverse());
        rest = rest / 10;
    }
    let digit = char_of(rest as u8);
    let ghost before = digits@;
    digits.push(digit);
    assert(digits@.reverse() =~= seq![digit] + before.reverse());
    digits
}

/// Writes `value` in decimal: its digits without leading zeros, after a `-`
/// if it is negative.
pub fn integer_to_string(value: isize) -> (text: String)
    ensures
        text@ == decimal_text(value as int),
{
    let wide: i128 = value as i128;
    let mut text = String::new();
    let number: u128 = if wide < 0 {
        text.push('-');
        (-wide) as u128
    } else {
        wide as u128
    };
    let ghost sign = text@;
    let digits = reversed_digits(number);
    let mut left: usize = digits.len();
    assert(text@ =~= sign + digits@.reverse().take(0));
    while left > 0
        invariant
            left <= digits.len(),
            text@ == sign + digits@.reverse().take(digits.len() - left),
        decreases left,
    {
        left = left - 1;
        text.push(digits[left]);
        assert(text@ =~= sign + digits@.reverse().take(digits.len() - left));
    }
    assert(digits@.reverse().take(digits.len() as int) =~= digits@.reverse());
    text
}

} // verus!
