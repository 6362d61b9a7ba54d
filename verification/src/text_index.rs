//! Reading a list position from its decimal text.

use vstd::prelude::*;
use vstd::string::*;

verus! {

pub open spec fn is_digit(c: char) -> bool {
    '0' <= c && c <= '9'
}

/// The number that a run of digits spells.
pub open spec fn decimal_value(digits: Seq<char>) -> nat
    decreases digits.len(),
{
    if digits.len() == 0 {
        0
    } else {
        decimal_value(digits.drop_last()) * 10 + ((digits.last() as nat) - ('0' as nat)) as nat
    }
}

pub open spec fn all_digits(text: Seq<char>) -> bool {
    forall|i: int| 0 <= i < text.len() ==> is_digit(#[trigger] text[i])
}

/// The position that a text spells: one or more decimal digits, with one
/// `+` in front if any, whose value fits the machine's positions. Any other
/// text spells none.
pub open spec fn parsed_index(text: Seq<char>) -> Option<usize> {
    let digits = if text.len() > 0 && text[0] == '+' {
        text.drop_first()
    } else {
        text
    };
    if digits.len() > 0 && all_digits(digits) && decimal_value(digits) <= usize::MAX {
        Some(decimal_value(digits) as usize)
    } else {
        None
    }
}

/// More digits never spell a smaller number.
pub proof fn lemma_decimal_value_grows(digits: Seq<char>, k: int)
    requires
        0 <= k <= digits.len(),
        all_digits(digits),
    ensures
        decimal_value(digits.take(k)) <= decimal_value(digits),
    decreases digits.len() - k,
{
    if k < digits.len() {
        let longer = digits.take(k + 1);
        assert(longer.drop_last() =~= digits.take(k));
        assert(is_digit(digits[k]));
        assert(longer.last() == digits[k]);
        lemma_decimal_value_grows(digits, k + 1);
    } else {
        assert(digits.take(k) =~= digits);
    }
}

/// Reads a position from its decimal text.
pub fn parse_index(text: &str) -> (index: Option<usize>)
    ensures
        index == parsed_index(text@),
{
    let len = text.unicode_len();
    if len == 0 {
        return None;
    }
    let first: usize = if text.get_char(0) == '+' {
        1
    } else {
        0
    };
    let ghost digits = if first == 1 {
        text@.drop_first()
    } else {
        text@
    };
    assert(digits =~= text@.subrange(first as int, len as int));
    if first == len {
        return None;
    }
    let mut value: usize = 0;
    let mut i: usize = first;
    assert(digits.take(0) =~= Seq::<char>::empty());
    while i < len
        invariant
            len == text@.len(),
            first <= i <= len,
            digits == text@.subrange(first as int, len as int),
            parsed_index(text@) == (if digits.len() > 0 && all_digits(digits) && decimal_value(
                digits,
            ) <= usize::MAX {
                Some(decimal_value(digits) as usize)
            } else {
                None
            }),
            all_digits(digits.take(i - first)),
            value == decimal_value(digits.take(i - first)),
        decreases len - i,
    {
        let c = text.get_char(i);
        assert(c == digits[i - first]);
        let ghost shorter = digits.take(i - first);
        let ghost longer = digits.take(i - first + 1);
        assert(longer.drop_last() =~= shorter);
        assert(longer.last() == c);
        if !(c >= '0' && c <= '9') {
            assert(!all_digits(digits));
            return None;
        }
        assert(all_digits(longer)) by {
            assert forall|j: int| 0 <= j < longer.len() implies is_digit(#[trigger] longer[j]) by {
                if j < shorter.len() {
                    assert(longer[j] == shorter[j]);
                }
            }
        }
        let d: usize = (c as u32 - '0' as u32) as usize;
        if value > (usize::MAX - d) / 10 {
            proof {
                assert(decimal_value(longer) > usize::MAX);
                if all_digits(digits) {
                    lemma_decimal_value_grows(digits, i - first + 1);
                }
            }
            return None;
        }
        value = value * 10 + d;
        i = i + 1;
    }
    assert(digits.take(len - first) =~= digits);
    Some(value)
}

} // verus!
