//! Searching a line for the shape of one kind of record, and telling a line
//! that is such a record from one that merely holds it.

use regex::Regex;
use vstd::prelude::*;
use vstd::string::*;

verus! {

/// What a search of one line found: `None` for a line without a match, else
/// the text of each capture group, the whole match first, and `None` in the
/// place of a group that took no part in the match.
pub type Groups = Option<Vec<Option<String>>>;

/// The model of [`Groups`].
pub type GroupsModel = Option<Seq<Option<Seq<char>>>>;

/// The capture groups that the regular expression `pattern` yields on its
/// leftmost match in `line`: group 0 is the whole match, the others follow in
/// the order of their opening parentheses, and a group that took no part in
/// the match is `None`. The result is `None` when nothing in `line` matches,
/// or when `pattern` does not compile.
pub uninterp spec fn capture_groups(pattern: Seq<char>, line: Seq<char>) -> Option<
    Seq<Option<Seq<char>>>,
>;

/// Whether the search matched `line` from its first character to its last:
/// group 0, the whole match, is the line itself. A record that stands
/// somewhere inside a longer line does not make that line a record.
pub open spec fn whole_line(groups: GroupsModel, line: Seq<char>) -> bool {
    &&& groups is Some
    &&& groups->0.len() > 0
    &&& groups->0[0] == Some(line)
}

/// Tells whether what the search found is the whole of `line`.
pub fn is_whole_line(groups: &Groups, line: &str) -> (whole: bool)
    ensures
        whole == whole_line(groups.deep_view(), line@),
{
    match groups {
        Some(found) => {
            if found.len() == 0 {
                return false;
            }
            match &found[0] {
                Some(matched) => *matched == String::from_str(line),
                None => false,
            }
        },
        None => false,
    }
}

/// Compiles `pattern` with `regex::Regex::new`, searches `line` with
/// `regex::Regex::captures`, and copies out the text of every group that
/// `regex::Captures::iter` yields.
///
/// Not proved: that what comes back depends on the two texts alone. The
/// contract claims no more than that, by giving the outcome its name.
#[verifier::external_body]
pub(crate) fn match_groups(pattern: &str, line: &str) -> (groups: Groups)
    ensures
        groups.deep_view() == capture_groups(pattern@, line@),
{
    match Regex::new(pattern) {
        Ok(compiled) => compiled.captures(line).map(
            |found| found.iter().map(|group| group.map(|m| m.as_str().to_string())).collect(),
        ),
        Err(_) => None,
    }
}

} // verus!
