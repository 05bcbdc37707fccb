//! Geometric vertices: the `v x y z` lines.

use crate::decimal::{Decimal, DecimalModel};
use crate::error::{ParseError, RejectedLine};
use crate::pattern::{capture_groups, match_groups, whole_line, Groups, GroupsModel};
use crate::vertex::{components_of, has_components, read_components, Components};
use crate::views::views;
use vstd::prelude::*;

verus! {

/// The shape of a geometric vertex line: `v` and three numbers, each with a
/// point and digits on both sides of it.
pub const PATTERN: &'static str = r"v (?P<x>-*\d+\.\d+) (?P<y>-*\d+\.\d+) (?P<z>-*\d+\.\d+)";

/// A point in model space: x, y and z.
#[derive(Debug, PartialEq, Eq)]
pub struct GeometricVertex {
    position: [Decimal; 3],
}

impl View for GeometricVertex {
    type V = Components;

    closed spec fn view(&self) -> Components {
        views(self.position@)
    }
}

impl Default for GeometricVertex {
    fn default() -> (vertex: Self)
        ensures
            vertex@ == Self::default_model(),
    {
        GeometricVertex { position: [Decimal::zero(), Decimal::zero(), Decimal::zero()] }
    }
}

impl Clone for GeometricVertex {
    fn clone(&self) -> (copy: Self)
        ensures
            copy@ == self@,
    {
        let x = self.position[0].clone();
        let y = self.position[1].clone();
        let z = self.position[2].clone();
        GeometricVertex { position: [x, y, z] }
    }
}

impl GeometricVertex {
    /// The model of the vertex at the origin.
    pub open spec fn default_model() -> Components {
        seq![DecimalModel::zero(), DecimalModel::zero(), DecimalModel::zero()]
    }

    /// Whether `result` is what parsing `line` must give: the three numbers
    /// of the line where the whole of it has the shape of [`PATTERN`], and
    /// else the line turned down as a [`ParseError::LineShapeMismatch`].
    pub open spec fn parses_to(line: Seq<char>, result: Result<Self, RejectedLine>) -> bool {
        Self::reads_as(capture_groups(PATTERN@, line), line, result)
    }

    /// Whether `result` is what a search that found `groups` in `line` must
    /// give.
    pub open spec fn reads_as(
        groups: GroupsModel,
        line: Seq<char>,
        result: Result<Self, RejectedLine>,
    ) -> bool {
        match result {
            Ok(vertex) => components_of(groups, line, 3) == Ok::<Components, ParseError>(vertex@),
            Err(rejected) => {
                &&& components_of(groups, line, 3) == Err::<Components, ParseError>(
                    rejected@.reason,
                )
                &&& rejected@.line == line
            },
        }
    }

    /// The vertex at `position`.
    pub fn new(position: [Decimal; 3]) -> (vertex: Self)
        ensures
            vertex@ == views(position@),
    {
        GeometricVertex { position }
    }

    /// The three components: x, y, z.
    pub fn position(&self) -> (position: &[Decimal; 3])
        ensures
            views(position@) == self@,
    {
        &self.position
    }

    /// Builds the vertex from what a search of `line` found.
    pub fn from_groups(groups: Groups, line: &str) -> (result: Result<Self, RejectedLine>)
        ensures
            Self::reads_as(groups.deep_view(), line@, result),
            result is Ok <==> has_components(groups.deep_view(), line@, 3),
            result is Err ==> result->Err_0@.reason == ParseError::LineShapeMismatch,
            !whole_line(groups.deep_view(), line@) ==> result is Err,
    {
        match read_components(&groups, line, 3) {
            Ok(mut numbers) => {
                let ghost all = numbers@;
                let z = numbers.pop().unwrap();
                let y = numbers.pop().unwrap();
                let x = numbers.pop().unwrap();
                let vertex = GeometricVertex { position: [x, y, z] };
                assert(vertex@ =~= views(all));
                Ok(vertex)
            },
            Err(reason) => Err(RejectedLine::new(reason, line)),
        }
    }

    /// Parses a `v x y z` line.
    ///
    /// The line must have the shape of [`PATTERN`] from its first character
    /// to its last: one with anything before the leading token or after the
    /// third number is turned down. A number of the line that is no numeral,
    /// such as one with two signs, counts as `0.0`.
    pub fn from_line(line: &str) -> (result: Result<Self, RejectedLine>)
        ensures
            Self::parses_to(line@, result),
            result is Ok <==> has_components(capture_groups(PATTERN@, line@), line@, 3),
            result is Err ==> result->Err_0@.reason == ParseError::LineShapeMismatch,
            !whole_line(capture_groups(PATTERN@, line@), line@) ==> result is Err,
    {
        Self::from_groups(match_groups(PATTERN, line), line)
    }

    /// Parsing keeps no state: two results of parsing the same line are the
    /// same, both the same vertex or both the same rejection.
    pub proof fn lemma_from_line_repeatable(
        line: Seq<char>,
        first: Result<Self, RejectedLine>,
        second: Result<Self, RejectedLine>,
    )
        requires
            Self::parses_to(line, first),
            Self::parses_to(line, second),
        ensures
            first is Ok <==> second is Ok,
            first is Ok ==> first->Ok_0@ == second->Ok_0@,
            first is Err ==> first->Err_0@ == second->Err_0@,
    {
    }
}

} // verus!
