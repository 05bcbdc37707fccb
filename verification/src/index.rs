//! The indices of a face: how a token is read as one, and which element of a
//! collection an index names.

use crate::digits::{digit_value, digits_of, digits_value, is_digit, read_digit, sign_len};
use vstd::prelude::*;

verus! {

/// Whether `text` is an integer: an optional `-`, then one or more digits.
pub open spec fn is_integer(text: Seq<char>) -> bool {
    let start = sign_len(text);
    &&& start < text.len()
    &&& forall|i: int| start <= i < text.len() ==> is_digit(#[trigger] text[i])
}

/// The number that the integer `text` spells.
pub open spec fn integer_of(text: Seq<char>) -> int {
    let start = sign_len(text);
    let magnitude = digits_value(digits_of(text.subrange(start, text.len() as int)));
    if start == 1 {
        -magnitude
    } else {
        magnitude as int
    }
}

/// The index that a token of a face stands for: the integer it spells where
/// that fits in 32 bits, and 0 in every other case.
pub open spec fn token_index(token: Seq<char>) -> int {
    if is_integer(token) && i32::MIN <= integer_of(token) <= i32::MAX {
        integer_of(token)
    } else {
        0
    }
}

/// The index of a slot of a face: that of its token, and 0 for a slot that
/// the line leaves out.
pub open spec fn slot_index(slot: Option<Seq<char>>) -> int {
    match slot {
        Some(token) => token_index(token),
        None => 0,
    }
}

/// The place in a collection of `len` elements that `index` names, counted
/// from 0: a positive index counts from the front and starts at 1, any other
/// counts back from the end, so that -1 names the last element.
pub open spec fn position_of(index: int, len: nat) -> int {
    if index > 0 {
        index - 1
    } else {
        len + index
    }
}

/// Whether `index` names an element of a collection of `len` elements.
pub open spec fn resolves(index: int, len: nat) -> bool {
    0 <= position_of(index, len) < len
}

/// A positive index is 1-based: up to the length it names the element one
/// place before it, and past the length it names none.
pub proof fn lemma_positive_index(index: int, len: nat)
    requires
        index > 0,
    ensures
        resolves(index, len) <==> index <= len,
        position_of(index, len) == index - 1,
{
}

/// A negative index counts back from the end: -1 names the last element, -2
/// the one before it, down to the first; further back it names none.
pub proof fn lemma_negative_index(index: int, len: nat)
    requires
        index < 0,
    ensures
        resolves(index, len) <==> -index <= len,
        position_of(index, len) == len - (-index),
        index == -1 ==> position_of(index, len) == len - 1,
        index == -2 ==> position_of(index, len) == len - 2,
{
}

/// Index 0 names the place just past the end, so it never resolves.
pub proof fn lemma_zero_index(len: nat)
    ensures
        !resolves(0, len),
        position_of(0, len) == len,
{
}

/// Appending a digit to a run of digits: ten times the value, plus the digit.
proof fn lemma_value_push(text: Seq<char>, start: int, end: int)
    requires
        0 <= start <= end < text.len(),
    ensures
        digits_value(digits_of(text.subrange(start, end + 1))) == digits_value(
            digits_of(text.subrange(start, end)),
        ) * 10 + digit_value(text[end]),
{
    let longer = digits_of(text.subrange(start, end + 1));
    assert(longer.drop_last() =~= digits_of(text.subrange(start, end)));
}

/// Reads a token of a face as an index.
pub fn index_of_token(token: &str) -> (index: i32)
    ensures
        index == token_index(token@),
{
    let ghost text = token@;
    let mut negative = false;
    let mut at_start = true;
    let mut any_digit = false;
    let mut valid = true;
    let mut fits = true;
    let mut magnitude: i64 = 0;
    let chars = token.chars();
    for c in iter: chars
        invariant
            iter.seq() == text,
            at_start <==> iter.index() == 0,
            !valid ==> !is_integer(text),
            valid ==> negative == (iter.index() > 0 && text[0] == '-'),
            valid ==> {
                let start = if negative { 1int } else { 0int };
                let value = digits_value(digits_of(text.subrange(start, iter.index() as int)));
                &&& start <= iter.index()
                &&& any_digit <==> start < iter.index()
                &&& forall|i: int| start <= i < iter.index() ==> is_digit(#[trigger] text[i])
                &&& fits ==> magnitude == value
                &&& !fits ==> value > 0x8000_0000
            },
            0 <= magnitude <= 0x8000_0000,
    {
        let ghost n = iter.index() as int;
        if valid {
            if at_start && c == '-' {
                negative = true;
            } else {
                match read_digit(c) {
                    Some(digit) => {
                        proof {
                            lemma_value_push(text, if negative { 1 } else { 0 }, n);
                        }
                        any_digit = true;
                        if fits {
                            magnitude = magnitude * 10 + digit as i64;
                            if magnitude > 0x8000_0000 {
                                fits = false;
                                magnitude = 0;
                            }
                        }
                    },
                    None => {
                        valid = false;
                    },
                }
            }
        }
        at_start = false;
    }
    if !valid || !any_digit || !fits {
        0
    } else if negative {
        (-magnitude) as i32
    } else if magnitude <= 0x7fff_ffff {
        magnitude as i32
    } else {
        0
    }
}

/// Finds the element that `index` names in a collection of `len` elements.
pub fn resolve_index(index: i32, len: usize) -> (position: Option<usize>)
    ensures
        position is Some <==> resolves(index as int, len as nat),
        position is Some ==> position->0 == position_of(index as int, len as nat),
{
    if index > 0 {
        let position = (index - 1) as usize;
        if position < len {
            Some(position)
        } else {
            None
        }
    } else {
        let back = (-(index as i64)) as u64;
        if back >= 1 && back <= len as u64 {
            Some(len - back as usize)
        } else {
            None
        }
    }
}

} // verus!
