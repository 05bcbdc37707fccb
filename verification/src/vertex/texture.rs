//! Texture coordinates: the `vt u v` lines.

use crate::decimal::{token_numeral, Decimal, DecimalModel};
use crate::error::{ParseError, RejectedLine, TextureAxis};
use crate::pattern::{capture_groups, match_groups, whole_line, Groups, GroupsModel};
use crate::vertex::{components_of, has_components, read_components, Components};
use crate::views::views;
use vstd::prelude::*;

verus! {

/// The shape of a texture coordinate line: `vt` and two numbers, each with a
/// point and digits on both sides of it.
pub const PATTERN: &'static str = r"vt (?P<u>-*\d+\.\d+) (?P<v>-*\d+\.\d+)";

/// A place in a texture image: u and v, neither below zero.
#[derive(Debug, PartialEq, Eq)]
pub struct TextureVertex {
    coordinate: [Decimal; 2],
}

/// Whether neither of the two components is below zero.
pub open spec fn in_texture(coordinate: Components) -> bool {
    &&& coordinate.len() == 2
    &&& !coordinate[0].is_negative()
    &&& !coordinate[1].is_negative()
}

/// The coordinate that the groups of a search give for `line`: its two
/// numbers where the match is the whole line, unless one is below zero, u
/// being looked at first.
pub open spec fn coordinate_of(groups: GroupsModel, line: Seq<char>) -> Result<
    Components,
    ParseError,
> {
    match components_of(groups, line, 2) {
        Ok(coordinate) => if coordinate[0].is_negative() {
            Err(ParseError::NegativeTextureCoordinate(TextureAxis::U))
        } else if coordinate[1].is_negative() {
            Err(ParseError::NegativeTextureCoordinate(TextureAxis::V))
        } else {
            Ok(coordinate)
        },
        Err(reason) => Err(reason),
    }
}

impl View for TextureVertex {
    type V = Components;

    closed spec fn view(&self) -> Components {
        views(self.coordinate@)
    }
}

impl Default for TextureVertex {
    fn default() -> (vertex: Self)
        ensures
            vertex@ == seq![DecimalModel::zero(), DecimalModel::zero()],
    {
        TextureVertex { coordinate: [Decimal::zero(), Decimal::zero()] }
    }
}

impl Clone for TextureVertex {
    fn clone(&self) -> (copy: Self)
        ensures
            copy@ == self@,
    {
        proof {
            use_type_invariant(self);
        }
        let u = self.coordinate[0].clone();
        let v = self.coordinate[1].clone();
        TextureVertex { coordinate: [u, v] }
    }
}

impl TextureVertex {
    #[verifier::type_invariant]
    spec fn inv(self) -> bool {
        in_texture(self@)
    }

    /// Whether `result` is what parsing `line` must give: the two numbers of
    /// the line where the whole of it has the shape of [`PATTERN`] and
    /// neither is below zero, and else the line turned down with the reason.
    pub open spec fn parses_to(line: Seq<char>, result: Result<Self, RejectedLine>) -> bool {
        Self::reads_as(capture_groups(PATTERN@, line), line, result)
    }

    /// Whether `result` is what a search that found `groups` in `line` must
    /// give.
    pub open spec fn reads_as(
        groups: GroupsModel,
        line: Seq<char>,
        result: Result<Self, RejectedLine>,
    ) -> bool {
        match result {
            Ok(vertex) => coordinate_of(groups, line) == Ok::<Components, ParseError>(vertex@),
            Err(rejected) => {
                &&& coordinate_of(groups, line) == Err::<Components, ParseError>(
                    rejected@.reason,
                )
                &&& rejected@.line == line
            },
        }
    }

    /// The two components: u, v.
    pub fn coordinate(&self) -> (coordinate: &[Decimal; 2])
        ensures
            views(coordinate@) == self@,
            in_texture(self@),
    {
        proof {
            use_type_invariant(self);
        }
        &self.coordinate
    }

    /// Builds the coordinate from what a search of `line` found.
    pub fn from_groups(groups: Groups, line: &str) -> (result: Result<Self, RejectedLine>)
        ensures
            Self::reads_as(groups.deep_view(), line@, result),
            result is Ok ==> in_texture(result->Ok_0@),
            result is Ok <==> coordinate_of(groups.deep_view(), line@) is Ok,
            !whole_line(groups.deep_view(), line@) ==> result is Err
                && result->Err_0@.reason == ParseError::LineShapeMismatch,
    {
        match read_components(&groups, line, 2) {
            Ok(mut numbers) => {
                let ghost all = numbers@;
                let v = numbers.pop().unwrap();
                let u = numbers.pop().unwrap();
                if u.is_negative() {
                    let reason = ParseError::NegativeTextureCoordinate(TextureAxis::U);
                    Err(RejectedLine::new(reason, line))
                } else if v.is_negative() {
                    let reason = ParseError::NegativeTextureCoordinate(TextureAxis::V);
                    Err(RejectedLine::new(reason, line))
                } else {
                    assert(views([u, v]@) =~= views(all));
                    let vertex = TextureVertex { coordinate: [u, v] };
                    Ok(vertex)
                }
            },
            Err(reason) => Err(RejectedLine::new(reason, line)),
        }
    }

    /// Parses a `vt u v` line.
    ///
    /// The line must have the shape of [`PATTERN`] from its first character
    /// to its last: one with anything before the leading token or after the
    /// second number is turned down, and so is one with a component below
    /// zero. A number of the line that is no numeral, such as one with two
    /// signs, counts as `0.0`.
    pub fn from_line(line: &str) -> (result: Result<Self, RejectedLine>)
        ensures
            Self::parses_to(line@, result),
            result is Ok ==> in_texture(result->Ok_0@),
            result is Ok <==> coordinate_of(capture_groups(PATTERN@, line@), line@) is Ok,
            !whole_line(capture_groups(PATTERN@, line@), line@) ==> result is Err
                && result->Err_0@.reason == ParseError::LineShapeMismatch,
    {
        Self::from_groups(match_groups(PATTERN, line), line)
    }

    /// Parsing keeps no state: two results of parsing the same line are the
    /// same, both the same coordinate or both the same rejection.
    pub proof fn lemma_from_line_repeatable(
        line: Seq<char>,
        first: Result<Self, RejectedLine>,
        second: Result<Self, RejectedLine>,
    )
        requires
            Self::parses_to(line, first),
            Self::parses_to(line, second),
        ensures
            first is Ok <==> second is Ok,
            first is Ok ==> first->Ok_0@ == second->Ok_0@,
            first is Err ==> first->Err_0@ == second->Err_0@,
    {
    }

    /// A line with a component below zero is turned down, whatever the other
    /// component is, and the reason names the first such component.
    pub proof fn lemma_negative_is_rejected(groups: GroupsModel, line: Seq<char>)
        requires
            has_components(groups, line, 2),
        ensures
            token_numeral(groups->0[1]->0).is_negative() ==> coordinate_of(groups, line) == Err::<
                Components,
                ParseError,
            >(ParseError::NegativeTextureCoordinate(TextureAxis::U)),
            !token_numeral(groups->0[1]->0).is_negative() && token_numeral(
                groups->0[2]->0,
            ).is_negative() ==> coordinate_of(groups, line) == Err::<Components, ParseError>(
                ParseError::NegativeTextureCoordinate(TextureAxis::V),
            ),
            coordinate_of(groups, line) is Ok <==> !token_numeral(groups->0[1]->0).is_negative()
                && !token_numeral(groups->0[2]->0).is_negative(),
    {
    }
}

} // verus!
