//! Vertex normals: the `vn x y z` lines.

use crate::decimal::{Decimal, DecimalModel};
use crate::error::{ParseError, RejectedLine};
use crate::pattern::{capture_groups, match_groups, whole_line, Groups, GroupsModel};
use crate::vertex::{components_of, has_components, read_components, Components};
use crate::views::views;
use vstd::prelude::*;

verus! {

/// The shape of a vertex normal line: `vn` and three numbers, each with a
/// point and digits on both sides of it.
pub const PATTERN: &'static str = r"vn (?P<x>-*\d+\.\d+) (?P<y>-*\d+\.\d+) (?P<z>-*\d+\.\d+)";

/// A direction that goes with a vertex: x, y and z. It is kept as written,
/// whatever its length.
#[derive(Debug, PartialEq, Eq)]
pub struct VertexNormal {
    direction: [Decimal; 3],
}

impl View for VertexNormal {
    type V = Components;

    closed spec fn view(&self) -> Components {
        views(self.direction@)
    }
}

impl Default for VertexNormal {
    fn default() -> (normal: Self)
        ensures
            normal@ == seq![DecimalModel::zero(), DecimalModel::zero(), DecimalModel::zero()],
    {
        VertexNormal { direction: [Decimal::zero(), Decimal::zero(), Decimal::zero()] }
    }
}

impl Clone for VertexNormal {
    fn clone(&self) -> (copy: Self)
        ensures
            copy@ == self@,
    {
        let x = self.direction[0].clone();
        let y = self.direction[1].clone();
        let z = self.direction[2].clone();
        VertexNormal { direction: [x, y, z] }
    }
}

impl VertexNormal {
    /// Whether `result` is what parsing `line` must give: the three numbers
    /// of the line where the whole of it has the shape of [`PATTERN`], and
    /// else the line turned down as a [`ParseError::LineShapeMismatch`].
    pub open spec fn parses_to(line: Seq<char>, result: Result<Self, RejectedLine>) -> bool {
        Self::reads_as(capture_groups(PATTERN@, line), line, result)
    }

    /// Whether `result` is what a search that found `groups` in `line` must
    /// give.
    pub open spec fn reads_as(
        groups: GroupsModel,
        line: Seq<char>,
        result: Result<Self, RejectedLine>,
    ) -> bool {
        match result {
            Ok(normal) => components_of(groups, line, 3) == Ok::<Components, ParseError>(normal@),
            Err(rejected) => {
                &&& components_of(groups, line, 3) == Err::<Components, ParseError>(
                    rejected@.reason,
                )
                &&& rejected@.line == line
            },
        }
    }

    /// The three components: x, y, z.
    pub fn direction(&self) -> (direction: &[Decimal; 3])
        ensures
            views(direction@) == self@,
    {
        &self.direction
    }

    /// Builds the normal from what a search of `line` found.
    pub fn from_groups(groups: Groups, line: &str) -> (result: Result<Self, RejectedLine>)
        ensures
            Self::reads_as(groups.deep_view(), line@, result),
            result is Ok <==> has_components(groups.deep_view(), line@, 3),
            result is Err ==> result->Err_0@.reason == ParseError::LineShapeMismatch,
            !whole_line(groups.deep_view(), line@) ==> result is Err,
    {
        match read_components(&groups, line, 3) {
            Ok(mut numbers) => {
                let ghost all = numbers@;
                let z = numbers.pop().unwrap();
                let y = numbers.pop().unwrap();
                let x = numbers.pop().unwrap();
                let normal = VertexNormal { direction: [x, y, z] };
                assert(normal@ =~= views(all));
                Ok(normal)
            },
            Err(reason) => Err(RejectedLine::new(reason, line)),
        }
    }

    /// Parses a `vn x y z` line.
    ///
    /// The line must have the shape of [`PATTERN`] from its first character
    /// to its last: one with anything before the leading token or after the
    /// third number is turned down. A number of the line that is no numeral,
    /// such as one with two signs, counts as `0.0`.
    pub fn from_line(line: &str) -> (result: Result<Self, RejectedLine>)
        ensures
            Self::parses_to(line@, result),
            result is Ok <==> has_components(capture_groups(PATTERN@, line@), line@, 3),
            result is Err ==> result->Err_0@.reason == ParseError::LineShapeMismatch,
            !whole_line(capture_groups(PATTERN@, line@), line@) ==> result is Err,
    {
        Self::from_groups(match_groups(PATTERN, line), line)
    }

    /// Parsing keeps no state: two results of parsing the same line are the
    /// same, both the same normal or both the same rejection.
    pub proof fn lemma_from_line_repeatable(
        line: Seq<char>,
        first: Result<Self, RejectedLine>,
        second: Result<Self, RejectedLine>,
    )
        requires
            Self::parses_to(line, first),
            Self::parses_to(line, second),
        ensures
            first is Ok <==> second is Ok,
            first is Ok ==> first->Ok_0@ == second->Ok_0@,
            first is Err ==> first->Err_0@ == second->Err_0@,
    {
    }
}

} // verus!
