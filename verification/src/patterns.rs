//! Text patterns: what a regular expression finds in a text.

use vstd::prelude::*;

verus! {

/// The pattern of a system table: its version, and its stations between brackets.
pub const TABLE_PATTERN: &'static str =
    "\\s*version\\s*=\\s*([0-9]+)\\s*;\\s*stations\\s*=\\s*\\((.+)\\)\\s*;";

/// The pattern of one station of a system table: its fields between braces.
pub const STATION_PATTERN: &'static str = "\\{\\s*(.+?)\\s*\\s*\\}";

/// The pattern of one field of a station: a key, an equals sign, a value, and a semicolon.
pub const FIELD_PATTERN: &'static str = "\\s*(\\w+?)\\s*=\\s*(.+?)\\s*;";

/// The pattern of a position: the word `POINT` and, between brackets, three numbers.
pub const POINT_PATTERN: &'static str =
    "POINT\\s*\\(\\s*((?:|-)[0-9]+(?:|\\.)[0-9]*)\\s+((?:|-)[0-9]+(?:|\\.)[0-9]*)\\s+((?:|-)[0-9]+(?:|\\.)[0-9]*)\\s*\\)";

/// The pattern of a path: the word `LINESTRING` and, between brackets, its points.
pub const LINE_PATTERN: &'static str = "LINESTRING\\s*\\(\\s*(.+)\\s*\\)";

/// The pattern of one point of a path: three numbers.
pub const COORDINATES_PATTERN: &'static str =
    "\\s*((?:|-)[0-9]+(?:|\\.)[0-9]*)\\s+((?:|-)[0-9]+(?:|\\.)[0-9]*)\\s+((?:|-)[0-9]+(?:|\\.)[0-9]*)\\s*";

/// Whether `pattern` is one of the patterns above.
pub open spec fn is_known_pattern(pattern: Seq<char>) -> bool {
    pattern == TABLE_PATTERN@ || pattern == STATION_PATTERN@ || pattern == FIELD_PATTERN@
        || pattern == POINT_PATTERN@ || pattern == LINE_PATTERN@ || pattern
        == COORDINATES_PATTERN@
}

/// What the first match of `pattern` in `text` captures: the whole match, then each group of
/// the pattern in the order of its opening bracket, a group that took no part in the match
/// being none. `None` where the pattern does not match.
pub uninterp spec fn first_match(pattern: Seq<char>, text: Seq<char>) -> Option<Seq<Option<Seq<char>>>>;

/// What the matches of `pattern` in `text` capture, match after match from the left, none
/// overlapping another.
pub uninterp spec fn all_matches(pattern: Seq<char>, text: Seq<char>) -> Seq<Seq<Option<Seq<char>>>>;

/// The texts of the groups `groups`.
pub open spec fn groups_of(groups: Seq<Option<String>>) -> Seq<Option<Seq<char>>> {
    Seq::new(
        groups.len(),
        |i: int|
            match groups[i] {
                Some(g) => Some(g@),
                None => None,
            },
    )
}

/// The texts of the groups of the matches `matches`.
pub open spec fn matches_of(matches: Seq<Vec<Option<String>>>) -> Seq<Seq<Option<Seq<char>>>> {
    Seq::new(matches.len(), |i: int| groups_of(matches[i]@))
}

/// Calls `regex::Regex::new` and, on the pattern it compiles, `captures` with the text: the
/// groups of the first match, as `Captures::iter` hands them out.
#[verifier::external_body]
pub(crate) fn captures(pattern: &str, text: &str) -> (out: Option<Vec<Option<String>>>)
    requires
        is_known_pattern(pattern@),
    ensures
        out is Some <==> first_match(pattern@, text@) is Some,
        out matches Some(g) ==> first_match(pattern@, text@) == Some(groups_of(g@)),
{
    regex::Regex::new(pattern).unwrap().captures(text).map(
        |c| c.iter().map(|m| m.map(|x| x.as_str().to_string())).collect(),
    )
}

/// Calls `regex::Regex::new` and, on the pattern it compiles, `captures_iter` with the text:
/// the groups of every match, as `Captures::iter` hands them out.
#[verifier::external_body]
pub(crate) fn captures_iter(pattern: &str, text: &str) -> (out: Vec<Vec<Option<String>>>)
    requires
        is_known_pattern(pattern@),
    ensures
        matches_of(out@) == all_matches(pattern@, text@),
{
    regex::Regex::new(pattern).unwrap().captures_iter(text).map(
        |c| c.iter().map(|m| m.map(|x| x.as_str().to_string())).collect(),
    ).collect()
}

/// The text of the group `i`, or nothing where the match has no such group.
pub open spec fn group(m: Seq<Option<Seq<char>>>, i: int) -> Seq<char> {
    if 0 <= i < m.len() {
        match m[i] {
            Some(g) => g,
            None => Seq::empty(),
        }
    } else {
        Seq::empty()
    }
}

/// The text of the group `i`.
pub fn group_text(m: &Vec<Option<String>>, i: usize) -> (out: String)
    ensures
        out@ == group(groups_of(m@), i as int),
{
    if i < m.len() {
        match &m[i] {
            Some(g) => g.clone(),
            None => String::new(),
        }
    } else {
        String::new()
    }
}

} // verus!
