//! Reading one header out of the header lines of a response, as the
//! diagnostic probe does.
use crate::text::{starts_with, trim, trimmed};
use vstd::prelude::*;
use vstd::string::*;

verus! {

/// The start of the header line that carries the feedback value.
pub const FEEDBACK_LINE_START: &'static str = "X-Load-Feedback:";

/// The value of a header line that begins with `start`: what follows `start`,
/// trimmed. A line that begins otherwise has none.
pub open spec fn line_value(line: Seq<char>, start: Seq<char>) -> Option<Seq<char>> {
    if start.is_prefix_of(line) {
        Some(trimmed(line.skip(start.len() as int)))
    } else {
        None
    }
}

/// The value of the first of `lines` that begins with `start`, and the empty
/// text when none does.
pub open spec fn first_value(lines: Seq<Seq<char>>, start: Seq<char>) -> Seq<char>
    decreases lines.len(),
{
    if lines.len() == 0 {
        Seq::empty()
    } else {
        match line_value(lines[0], start) {
            Some(value) => value,
            None => first_value(lines.drop_first(), start),
        }
    }
}

/// The lines as plain values.
pub open spec fn lines_view(lines: Seq<String>) -> Seq<Seq<char>> {
    lines.map_values(|line: String| line@)
}

/// The value of `line` if it begins with `start`.
pub fn header_value<'a>(line: &'a str, start: &str) -> (value: Option<&'a str>)
    ensures
        value is Some <==> line_value(line@, start@) is Some,
        value matches Some(text) ==> line_value(line@, start@) == Some(text@),
{
    if !starts_with(line, start) {
        return None;
    }
    let rest = line.substring_char(start.unicode_len(), line.unicode_len());
    assert(rest@ =~= line@.skip(start@.len() as int));
    Some(trim(rest))
}

/// The value of the first of `lines` that begins with `start`, or the empty
/// text.
pub fn get_header(lines: &Vec<String>, start: &str) -> (value: String)
    ensures
        value@ == first_value(lines_view(lines@), start@),
{
    let mut at: usize = 0;
    assert(lines_view(lines@).skip(0) =~= lines_view(lines@));
    while at < lines.len()
        invariant
            at <= lines.len(),
            first_value(lines_view(lines@), start@) == first_value(
                lines_view(lines@).skip(at as int),
                start@,
            ),
        decreases lines.len() - at,
    {
        let ghost rest = lines_view(lines@).skip(at as int);
        assert(rest[0] == lines@[at as int]@);
        assert(rest.drop_first() =~= lines_view(lines@).skip(at + 1));
        match header_value(lines[at].as_str(), start) {
            Some(text) => {
                return text.to_owned();
            },
            None => {},
        }
        at = at + 1;
    }
    String::new()
}

} // verus!
