//! The three kinds of vertex data, and what their parsers share: reading the
//! numbers out of the capture groups of a line that matched as a whole.

use crate::decimal::{
    is_numeral, lemma_numeral_lossless, token_numeral, Decimal, DecimalModel,
};
use crate::error::ParseError;
use crate::pattern::{is_whole_line, whole_line, Groups, GroupsModel};
use crate::views::views;
use vstd::prelude::*;

pub mod geometric;
pub mod normal;
pub mod texture;

verus! {

/// The model of a position, a normal or a texture coordinate: its
/// components, in order.
pub type Components = Seq<DecimalModel>;

/// Whether `groups` are those of a `line` that is a record of exactly `count`
/// numbers and nothing else: the match is the whole line, and besides it
/// there are `count` groups, each of them present.
pub open spec fn has_components(groups: GroupsModel, line: Seq<char>, count: nat) -> bool {
    &&& whole_line(groups, line)
    &&& groups->0.len() == count + 1
    &&& forall|i: int| 1 <= i <= count ==> (#[trigger] groups->0[i]) is Some
}

/// The `count` numbers of a line, in the order of their groups; a line of
/// another shape, or one that only holds the record somewhere inside it, is
/// a [`ParseError::LineShapeMismatch`].
pub open spec fn components_of(groups: GroupsModel, line: Seq<char>, count: nat) -> Result<
    Components,
    ParseError,
> {
    if has_components(groups, line, count) {
        Ok(Seq::new(count, |i: int| token_numeral(groups->0[i + 1]->0)))
    } else {
        Err(ParseError::LineShapeMismatch)
    }
}

/// A line is turned down when the match is not the whole of it: another
/// leading token before the record, or anything after its last number, such
/// as one number too many.
pub proof fn lemma_partial_match_is_rejected(groups: GroupsModel, line: Seq<char>, count: nat)
    requires
        !whole_line(groups, line),
    ensures
        components_of(groups, line, count) == Err::<Components, ParseError>(
            ParseError::LineShapeMismatch,
        ),
{
}

/// A number of a matched line that is a numeral is kept without loss: the
/// component that stands for it is written as the line has it.
pub proof fn lemma_components_lossless(groups: GroupsModel, line: Seq<char>, count: nat, i: int)
    requires
        has_components(groups, line, count),
        0 <= i < count,
        is_numeral(groups->0[i + 1]->0),
    ensures
        components_of(groups, line, count) is Ok,
        components_of(groups, line, count)->Ok_0[i].text() == groups->0[i + 1]->0,
{
    lemma_numeral_lossless(groups->0[i + 1]->0);
}

/// A number of a matched line that is no numeral counts as `0.0`.
pub proof fn lemma_components_default(groups: GroupsModel, line: Seq<char>, count: nat, i: int)
    requires
        has_components(groups, line, count),
        0 <= i < count,
        !is_numeral(groups->0[i + 1]->0),
    ensures
        components_of(groups, line, count) is Ok,
        components_of(groups, line, count)->Ok_0[i] == DecimalModel::zero(),
{
}

/// Reads the `count` numbers of `line`, once the match is seen to be the
/// whole of it.
pub(crate) fn read_components(groups: &Groups, line: &str, count: usize) -> (result: Result<
    Vec<Decimal>,
    ParseError,
>)
    requires
        count < usize::MAX,
    ensures
        match result {
            Ok(numbers) => {
                &&& numbers@.len() == count
                &&& components_of(groups.deep_view(), line@, count as nat) == Ok::<
                    Components,
                    ParseError,
                >(views(numbers@))
            },
            Err(reason) => components_of(groups.deep_view(), line@, count as nat) == Err::<
                Components,
                ParseError,
            >(reason),
        },
{
    let ghost model = groups.deep_view();
    if !is_whole_line(groups, line) {
        return Err(ParseError::LineShapeMismatch);
    }
    match groups {
        None => Err(ParseError::LineShapeMismatch),
        Some(found) => {
            if found.len() != count + 1 {
                return Err(ParseError::LineShapeMismatch);
            }
            let mut numbers: Vec<Decimal> = Vec::new();
            let mut i: usize = 0;
            while i < count
                invariant
                    i <= count,
                    found@.len() == count + 1,
                    model == groups.deep_view(),
                    *groups == Some(*found),
                    numbers@.len() == i,
                    forall|j: int| 1 <= j <= i ==> (#[trigger] model->0[j]) is Some,
                    forall|j: int|
                        0 <= j < i ==> (#[trigger] numbers@[j])@ == token_numeral(
                            model->0[j + 1]->0,
                        ),
                decreases count - i,
            {
                assert(model->0[i + 1] == found@[i + 1].deep_view());
                match &found[i + 1] {
                    None => {
                        return Err(ParseError::LineShapeMismatch);
                    },
                    Some(token) => {
                        let number = Decimal::from_token(token.as_str());
                        numbers.push(number);
                    },
                }
                i += 1;
            }
            assert(views(numbers@) =~= Seq::new(
                count as nat,
                |i: int| token_numeral(model->0[i + 1]->0),
            ));
            Ok(numbers)
        },
    }
}

} // verus!
