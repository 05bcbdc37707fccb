//! Decimal digits, as characters and as numbers.

use vstd::prelude::*;

verus! {

/// Whether `c` is one of the ten ASCII digits.
pub open spec fn is_digit(c: char) -> bool {
    '0' <= c <= '9'
}

/// The value of the ASCII digit `c`.
pub open spec fn digit_value(c: char) -> u8 {
    (c as u8 - 48) as u8
}

/// The ASCII digit that stands for `d`.
pub open spec fn digit_char(d: u8) -> char {
    (d + 48) as char
}

/// The length of the sign of `text`: 1 if it starts with `-`, else 0.
pub open spec fn sign_len(text: Seq<char>) -> int {
    if text.len() > 0 && text[0] == '-' {
        1
    } else {
        0
    }
}

/// Whether every element is a decimal digit, that is at most 9.
pub open spec fn all_decimal(digits: Seq<u8>) -> bool {
    forall|i: int| 0 <= i < digits.len() ==> #[trigger] digits[i] <= 9
}

/// The values of a run of ASCII digits.
pub open spec fn digits_of(text: Seq<char>) -> Seq<u8> {
    Seq::new(text.len(), |i: int| digit_value(text[i]))
}

/// The ASCII digits that stand for `digits`.
pub open spec fn digits_text(digits: Seq<u8>) -> Seq<char> {
    Seq::new(digits.len(), |i: int| digit_char(digits[i]))
}

/// The number that a sequence of decimal digits denotes, most significant
/// digit first.
pub open spec fn digits_value(digits: Seq<u8>) -> nat
    decreases digits.len(),
{
    if digits.len() == 0 {
        0
    } else {
        digits_value(digits.drop_last()) * 10 + digits.last() as nat
    }
}

/// A sequence of digits denotes zero exactly when each digit is zero.
pub proof fn lemma_value_zero(digits: Seq<u8>)
    ensures
        digits_value(digits) == 0 <==> forall|i: int| 0 <= i < digits.len() ==> digits[i] == 0,
    decreases digits.len(),
{
    if digits.len() > 0 {
        let front = digits.drop_last();
        lemma_value_zero(front);
        if digits_value(digits) == 0 {
            assert forall|i: int| 0 <= i < digits.len() implies digits[i] == 0 by {
                if i < front.len() {
                    assert(front[i] == digits[i]);
                }
            }
        }
    }
}

/// Writing digits as text and reading them back gives the same digits.
pub proof fn lemma_digits_round_trip(digits: Seq<u8>)
    requires
        all_decimal(digits),
    ensures
        digits_of(digits_text(digits)) == digits,
        forall|i: int| 0 <= i < digits.len() ==> is_digit(#[trigger] digits_text(digits)[i]),
{
}

/// Reading a run of ASCII digits and writing it back gives the same text.
pub proof fn lemma_text_round_trip(text: Seq<char>)
    requires
        forall|i: int| 0 <= i < text.len() ==> is_digit(#[trigger] text[i]),
    ensures
        digits_text(digits_of(text)) == text,
        all_decimal(digits_of(text)),
{
}

/// The value of `c` if it is an ASCII digit.
pub fn read_digit(c: char) -> (d: Option<u8>)
    ensures
        d is Some <==> is_digit(c),
        d is Some ==> d->0 == digit_value(c) && d->0 <= 9,
{
    if '0' <= c && c <= '9' {
        Some((c as u8) - 48u8)
    } else {
        None
    }
}

/// The one-character text that stands for the digit `d`.
pub(crate) fn digit_text(d: u8) -> (text: &'static str)
    requires
        d <= 9,
    ensures
        text@ == seq![digit_char(d)],
{
    proof {
        reveal_strlit("0");
        reveal_strlit("1");
        reveal_strlit("2");
        reveal_strlit("3");
        reveal_strlit("4");
        reveal_strlit("5");
        reveal_strlit("6");
        reveal_strlit("7");
        reveal_strlit("8");
        reveal_strlit("9");
    }
    let text = match d {
        0 => "0",
        1 => "1",
        2 => "2",
        3 => "3",
        4 => "4",
        5 => "5",
        6 => "6",
        7 => "7",
        8 => "8",
        _ => "9",
    };
    text
}

} // verus!
