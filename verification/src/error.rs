//! Why a line is turned down.

use vstd::prelude::*;
use vstd::string::*;

verus! {

/// The two components of a texture coordinate.
#[derive(Debug, Clone, Copy, PartialEq, Eq, Structural)]
pub enum TextureAxis {
    U,
    V,
}

/// The reason for which a parser turns a line down.
#[derive(Debug, Clone, Copy, PartialEq, Eq, Structural)]
pub enum ParseError {
    /// The line is not of the kind the parser reads: another leading token,
    /// a missing component, a number without a fractional part.
    LineShapeMismatch,
    /// A texture coordinate has a component below zero.
    NegativeTextureCoordinate(TextureAxis),
    /// A face names an element that its collection does not hold.
    IndexOutOfRange,
}

/// The words that go with each reason.
pub open spec fn reason_text(reason: ParseError) -> Seq<char> {
    match reason {
        ParseError::LineShapeMismatch => "line does not have the expected shape"@,
        ParseError::NegativeTextureCoordinate(TextureAxis::U) =>
            "negative 'u' value in texture coordinate"@,
        ParseError::NegativeTextureCoordinate(TextureAxis::V) =>
            "negative 'v' value in texture coordinate"@,
        ParseError::IndexOutOfRange => "index out of range"@,
    }
}

impl ParseError {
    /// The reason in words.
    pub fn message(&self) -> (text: &'static str)
        ensures
            text@ == reason_text(*self),
    {
        match self {
            ParseError::LineShapeMismatch => "line does not have the expected shape",
            ParseError::NegativeTextureCoordinate(TextureAxis::U) =>
                "negative 'u' value in texture coordinate",
            ParseError::NegativeTextureCoordinate(TextureAxis::V) =>
                "negative 'v' value in texture coordinate",
            ParseError::IndexOutOfRange => "index out of range",
        }
    }
}

/// What a [`RejectedLine`] holds.
pub struct RejectedLineModel {
    pub reason: ParseError,
    pub line: Seq<char>,
}

/// A line that a parser turned down, with the reason.
#[derive(Debug, PartialEq, Eq)]
pub struct RejectedLine {
    reason: ParseError,
    line: String,
}

impl View for RejectedLine {
    type V = RejectedLineModel;

    closed spec fn view(&self) -> RejectedLineModel {
        RejectedLineModel { reason: self.reason, line: self.line@ }
    }
}

impl RejectedLine {
    /// Records that `line` was turned down for `reason`.
    pub fn new(reason: ParseError, line: &str) -> (rejected: Self)
        ensures
            rejected@ == (RejectedLineModel { reason, line: line@ }),
    {
        RejectedLine { reason, line: String::from_str(line) }
    }

    /// The reason for which the line was turned down.
    pub fn reason(&self) -> (reason: ParseError)
        ensures
            reason == self@.reason,
    {
        self.reason
    }

    /// The line as it was given.
    pub fn line(&self) -> (line: &str)
        ensures
            line@ == self@.line,
    {
        self.line.as_str()
    }

    /// The reason and the line in one sentence: the reason, a colon and a
    /// space, then the line.
    pub fn message(&self) -> (text: String)
        ensures
            text@ == reason_text(self@.reason) + ": "@ + self@.line,
    {
        let mut text = String::from_str(self.reason.message());
        text.append(": ");
        text.append(self.line.as_str());
        text
    }
}

} // verus!
