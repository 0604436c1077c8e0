//! Reading a number that the user has typed.

use vstd::prelude::*;

verus! {

/// Whether `c` is one of the ten decimal digits.
pub open spec fn is_digit(c: char) -> bool {
    '0' <= c <= '9'
}

/// The value of a decimal digit.
pub open spec fn digit_value(c: char) -> nat {
    (c as int - '0' as int) as nat
}

/// Whether `text` holds decimal digits only.
pub open spec fn all_digits(text: Seq<char>) -> bool {
    forall|i: int| 0 <= i < text.len() ==> is_digit(#[trigger] text[i])
}

/// The number that the digits of `digits` write in base ten.
pub open spec fn decimal_value(digits: Seq<char>) -> nat
    decreases digits.len(),
{
    if digits.len() == 0 {
        0
    } else {
        decimal_value(digits.drop_last()) * 10 + digit_value(digits.last())
    }
}

/// `text` without the one plus sign that may lead it.
pub open spec fn without_plus(text: Seq<char>) -> Seq<char> {
    if text.len() > 0 && text[0] == '+' {
        text.subrange(1, text.len() as int)
    } else {
        text
    }
}

/// The number that `text` writes: one or more decimal digits, after at most
/// one plus sign, whose value fits in 32 bits. Any other text writes none.
pub open spec fn parsed_u32(text: Seq<char>) -> Option<u32> {
    let digits = without_plus(text);
    if digits.len() > 0 && all_digits(digits) && decimal_value(digits) <= u32::MAX {
        Some(decimal_value(digits) as u32)
    } else {
        None
    }
}

/// One more digit at the end multiplies the value by ten and adds the digit.
pub proof fn lemma_decimal_value_push(digits: Seq<char>, c: char)
    ensures
        decimal_value(digits.push(c)) == decimal_value(digits) * 10 + digit_value(c),
{
    assert(digits.push(c).drop_last() =~= digits);
}

/// Among digits, a number is at least as large as what any of its prefixes
/// writes.
pub proof fn lemma_decimal_value_prefix(digits: Seq<char>, len: int)
    requires
        all_digits(digits),
        0 <= len <= digits.len(),
    ensures
        decimal_value(digits.subrange(0, len)) <= decimal_value(digits),
    decreases digits.len(),
{
    if len == digits.len() {
        assert(digits.subrange(0, len) =~= digits);
    } else {
        let shorter = digits.drop_last();
        lemma_decimal_value_prefix(shorter, len);
        assert(shorter.subrange(0, len) =~= digits.subrange(0, len));
    }
}

/// Reads a number from `text` as the standard library reads a `u32`: one or
/// more decimal digits after at most one plus sign, and no other character.
/// A number too large for 32 bits is refused.
pub fn parse_u32(text: &str) -> (parsed: Option<u32>)
    ensures
        parsed == parsed_u32(text@),
{
    let ghost digits = without_plus(text@);
    let ghost skipped: int = text@.len() - digits.len();
    let mut value: u32 = 0;
    let mut at_start = true;
    let mut any_digit = false;
    for c in it: text.chars()
        invariant
            it.seq() == text@,
            digits == without_plus(text@),
            skipped == text@.len() - digits.len(),
            at_start <==> it.index() == 0,
            !at_start ==> skipped <= it.index(),
            at_start ==> !any_digit && value == 0,
            !at_start ==> {
                let seen = digits.subrange(0, it.index() - skipped);
                &&& all_digits(seen)
                &&& value == decimal_value(seen)
                &&& any_digit == (seen.len() > 0)
            },
    {
        let ghost index = it.index();
        if at_start && c == '+' {
            at_start = false;
            assert(digits.subrange(0, 0) =~= Seq::<char>::empty());
        } else {
            let ghost seen = if at_start {
                Seq::<char>::empty()
            } else {
                digits.subrange(0, index - skipped)
            };
            at_start = false;
            assert(digits[index - skipped] == c);
            if !(c >= '0' && c <= '9') {
                return None;
            }
            let digit: u32 = c as u32 - '0' as u32;
            proof {
                assert(digits.subrange(0, index - skipped + 1) =~= seen.push(c));
                lemma_decimal_value_push(seen, c);
                if all_digits(digits) {
                    lemma_decimal_value_prefix(digits, index - skipped + 1);
                }
            }
            let shifted = match value.checked_mul(10) {
                Some(shifted) => shifted,
                None => {
                    return None;
                },
            };
            value = match shifted.checked_add(digit) {
                Some(sum) => sum,
                None => {
                    return None;
                },
            };
            any_digit = true;
        }
    }
    proof {
        assert(digits.subrange(0, digits.len() as int) =~= digits);
    }
    if any_digit {
        Some(value)
    } else {
        None
    }
}

} // verus!
