//! Exact decimal numerals: the numbers of a mesh line, kept digit for digit.
//!
//! A component such as `-0.625000` is held as its sign, the digits before the
//! point and the digits after it. Nothing is rounded, so the numeral can be
//! written back as the text it was read from, and a caller that wants a binary
//! number converts that text at its own precision.

use crate::digits::{
    all_decimal, digit_text, digits_of, digits_text, digits_value, is_digit,
    lemma_digits_round_trip, lemma_text_round_trip, lemma_value_zero, read_digit, sign_len,
};
use vstd::prelude::*;
use vstd::string::*;

verus! {

/// What a [`Decimal`] holds: a sign and the digits on both sides of the point.
pub struct DecimalModel {
    pub negative: bool,
    pub whole: Seq<u8>,
    pub fraction: Seq<u8>,
}

impl DecimalModel {
    /// At least one digit on each side of the point, and digits only.
    pub open spec fn wf(self) -> bool {
        &&& self.whole.len() >= 1
        &&& self.fraction.len() >= 1
        &&& all_decimal(self.whole)
        &&& all_decimal(self.fraction)
    }

    /// The numeral `0.0`.
    pub open spec fn zero() -> DecimalModel {
        DecimalModel { negative: false, whole: seq![0u8], fraction: seq![0u8] }
    }

    /// All digits read as one natural number, the point left out.
    pub open spec fn mantissa(self) -> nat {
        digits_value(self.whole + self.fraction)
    }

    /// The number of digits after the point: the numeral denotes
    /// `mantissa / 10^scale`, negated if `negative`.
    pub open spec fn scale(self) -> nat {
        self.fraction.len()
    }

    /// Whether the number denoted is below zero. `-0.0` is not.
    pub open spec fn is_negative(self) -> bool {
        self.negative && self.mantissa() > 0
    }

    /// The numeral as text: `-` if negative, the whole digits, a point, the
    /// fraction digits.
    pub open spec fn text(self) -> Seq<char> {
        (if self.negative {
            seq!['-']
        } else {
            Seq::<char>::empty()
        }) + digits_text(self.whole) + seq!['.'] + digits_text(self.fraction)
    }
}

/// Whether `text` is a numeral with its point at `point`: an optional `-`,
/// then digits, of which at least one stands before the point and one after.
pub open spec fn numeral_at(text: Seq<char>, point: int) -> bool {
    &&& sign_len(text) < point < text.len() - 1
    &&& text[point] == '.'
    &&& forall|i: int|
        sign_len(text) <= i < text.len() && i != point ==> is_digit(#[trigger] text[i])
}

/// Whether `text` is a decimal numeral: `-?[0-9]+\.[0-9]+` and nothing else.
pub open spec fn is_numeral(text: Seq<char>) -> bool {
    exists|point: int| numeral_at(text, point)
}

/// Where the point of the numeral `text` stands.
pub open spec fn point_of(text: Seq<char>) -> int {
    choose|point: int| numeral_at(text, point)
}

/// The numeral that `text` spells, for a `text` that is one.
pub open spec fn numeral_of(text: Seq<char>) -> DecimalModel {
    let point = point_of(text);
    DecimalModel {
        negative: sign_len(text) == 1,
        whole: digits_of(text.subrange(sign_len(text), point)),
        fraction: digits_of(text.subrange(point + 1, text.len() as int)),
    }
}

/// The numeral that a token of a line stands for: the one it spells, or
/// `0.0` where it spells none.
pub open spec fn token_numeral(token: Seq<char>) -> DecimalModel {
    if is_numeral(token) {
        numeral_of(token)
    } else {
        DecimalModel::zero()
    }
}

/// A numeral has its point in one place only.
pub proof fn lemma_point_unique(text: Seq<char>, p: int, q: int)
    requires
        numeral_at(text, p),
        numeral_at(text, q),
    ensures
        p == q,
{
}

/// A numeral is read without loss: written back, it is the text it was read
/// from, digit for digit.
pub proof fn lemma_numeral_lossless(text: Seq<char>)
    requires
        is_numeral(text),
    ensures
        numeral_of(text).wf(),
        numeral_of(text).text() == text,
{
    let point = point_of(text);
    lemma_text_round_trip(text.subrange(sign_len(text), point));
    lemma_text_round_trip(text.subrange(point + 1, text.len() as int));
}

/// Every well-formed numeral is the reading of its own text.
pub proof fn lemma_text_is_numeral(numeral: DecimalModel)
    requires
        numeral.wf(),
    ensures
        is_numeral(numeral.text()),
        numeral_of(numeral.text()) == numeral,
{
    let text = numeral.text();
    let start: int = if numeral.negative { 1 } else { 0 };
    let point = start + numeral.whole.len();
    lemma_digits_round_trip(numeral.whole);
    lemma_digits_round_trip(numeral.fraction);
    assert(numeral_at(text, point));
    lemma_point_unique(text, point, point_of(text));
    assert(text.subrange(start, point) =~= digits_text(numeral.whole));
    assert(text.subrange(point + 1, text.len() as int) =~= digits_text(numeral.fraction));
}

/// A decimal numeral, exact to the last digit.
///
/// Two numerals are equal when they are written alike: `1.0` and `1.00` are
/// two numerals of one number.
#[derive(Debug, PartialEq, Eq)]
pub struct Decimal {
    negative: bool,
    whole: Vec<u8>,
    fraction: Vec<u8>,
}

impl View for Decimal {
    type V = DecimalModel;

    closed spec fn view(&self) -> DecimalModel {
        DecimalModel { negative: self.negative, whole: self.whole@, fraction: self.fraction@ }
    }
}

impl Clone for Decimal {
    fn clone(&self) -> (copy: Self)
        ensures
            copy@ == self@,
    {
        proof {
            use_type_invariant(self);
        }
        let whole = self.whole.clone();
        let fraction = self.fraction.clone();
        Decimal { negative: self.negative, whole, fraction }
    }
}

impl Default for Decimal {
    fn default() -> (d: Self)
        ensures
            d@ == DecimalModel::zero(),
    {
        Decimal::zero()
    }
}

impl Decimal {
    #[verifier::type_invariant]
    spec fn inv(self) -> bool {
        self@.wf()
    }

    /// The numeral `0.0`.
    pub fn zero() -> (d: Self)
        ensures
            d@ == DecimalModel::zero(),
    {
        let mut whole: Vec<u8> = Vec::new();
        whole.push(0u8);
        let mut fraction: Vec<u8> = Vec::new();
        fraction.push(0u8);
        Decimal { negative: false, whole, fraction }
    }

    /// Reads a token of a line. A token that is a numeral is kept digit for
    /// digit; any other token stands for `0.0`.
    pub fn from_token(token: &str) -> (d: Self)
        ensures
            d@ == token_numeral(token@),
            d@.wf(),
            is_numeral(token@) ==> d@.text() == token@,
    {
        let ghost text = token@;
        let mut negative = false;
        let mut whole: Vec<u8> = Vec::new();
        let mut fraction: Vec<u8> = Vec::new();
        let mut at_start = true;
        let mut seen_point = false;
        let mut valid = true;
        let ghost mut point: int = 0;
        let chars = token.chars();
        for c in iter: chars
            invariant
                iter.seq() == text,
                at_start <==> iter.index() == 0,
                !valid ==> !is_numeral(text),
                valid ==> negative == (iter.index() > 0 && text[0] == '-'),
                valid ==> all_decimal(whole@) && all_decimal(fraction@),
                valid && !seen_point ==> {
                    let start = if negative { 1int } else { 0int };
                    &&& start <= iter.index()
                    &&& whole@ == digits_of(text.subrange(start, iter.index() as int))
                    &&& fraction@.len() == 0
                    &&& forall|i: int| start <= i < iter.index() ==> is_digit(#[trigger] text[i])
                },
                valid && seen_point ==> {
                    let start = sign_len(text);
                    &&& start < point < iter.index()
                    &&& text[point] == '.'
                    &&& whole@ == digits_of(text.subrange(start, point))
                    &&& fraction@ == digits_of(text.subrange(point + 1, iter.index() as int))
                    &&& forall|i: int|
                        start <= i < iter.index() && i != point ==> is_digit(#[trigger] text[i])
                },
        {
            let ghost n = iter.index() as int;
            if valid {
                if at_start && c == '-' {
                    negative = true;
                } else {
                    match read_digit(c) {
                        Some(digit) => {
                            if seen_point {
                                fraction.push(digit);
                            } else {
                                whole.push(digit);
                            }
                        },
                        None => {
                            if c == '.' && !seen_point && whole.len() > 0 {
                                seen_point = true;
                                proof {
                                    point = n;
                                }
                            } else {
                                valid = false;
                            }
                        },
                    }
                }
            }
            at_start = false;
        }
        if valid && seen_point && fraction.len() > 0 {
            proof {
                assert(numeral_at(text, point));
                lemma_point_unique(text, point, point_of(text));
                lemma_numeral_lossless(text);
            }
            Decimal { negative, whole, fraction }
        } else {
            Decimal::zero()
        }
    }

    /// Whether the number is below zero: a `-` before digits that are not all
    /// zero.
    pub fn is_negative(&self) -> (negative: bool)
        ensures
            negative == self@.is_negative(),
    {
        proof {
            lemma_value_zero(self.whole@ + self.fraction@);
        }
        if !self.negative {
            return false;
        }
        let whole_zero = all_zero(&self.whole);
        let fraction_zero = all_zero(&self.fraction);
        proof {
            let all = self.whole@ + self.fraction@;
            if !whole_zero {
                let i = choose|i: int| 0 <= i < self.whole@.len() && self.whole@[i] != 0;
                assert(all[i] == self.whole@[i]);
            } else if !fraction_zero {
                let i = choose|i: int| 0 <= i < self.fraction@.len() && self.fraction@[i] != 0;
                assert(all[self.whole@.len() + i] == self.fraction@[i]);
            }
        }
        !(whole_zero && fraction_zero)
    }

    /// The numeral as text, such as `-0.625000`.
    pub fn to_text(&self) -> (text: String)
        ensures
            text@ == self@.text(),
    {
        proof {
            use_type_invariant(self);
        }
        let mut text = String::from_str(if self.negative { "-" } else { "" });
        proof {
            reveal_strlit("-");
            reveal_strlit("");
            reveal_strlit(".");
        }
        append_digits(&mut text, &self.whole);
        text.append(".");
        append_digits(&mut text, &self.fraction);
        text
    }
}

/// Whether every digit is zero.
fn all_zero(digits: &Vec<u8>) -> (zero: bool)
    ensures
        zero <==> forall|i: int| 0 <= i < digits@.len() ==> digits@[i] == 0,
{
    let mut i: usize = 0;
    while i < digits.len()
        invariant
            i <= digits.len(),
            forall|j: int| 0 <= j < i ==> digits@[j] == 0,
        decreases digits.len() - i,
    {
        if digits[i] != 0 {
            return false;
        }
        i += 1;
    }
    true
}

/// Writes `digits` at the end of `text`.
fn append_digits(text: &mut String, digits: &Vec<u8>)
    requires
        all_decimal(digits@),
    ensures
        final(text)@ == old(text)@ + digits_text(digits@),
{
    let mut i: usize = 0;
    while i < digits.len()
        invariant
            i <= digits.len(),
            all_decimal(digits@),
            text@ == old(text)@ + digits_text(digits@.take(i as int)),
        decreases digits.len() - i,
    {
        text.append(digit_text(digits[i]));
        i += 1;
    }
}

} // verus!
