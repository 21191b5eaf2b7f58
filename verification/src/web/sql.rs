//! SQL text without its comment lines.

use crate::chars::{
    join, join_with, lines, split_lines, to_chars, to_string, trim, trimmed, views,
};
use vstd::prelude::*;

verus! {

/// Whether a line of SQL is kept: a line is dropped if it is blank or if its
/// first characters, after leading whitespace, are `--`. Block comments in
/// the style of C are not looked for.
pub open spec fn keeps(line: Seq<char>) -> bool {
    let text = trim(line);
    !(text.len() == 0 || (text.len() >= 2 && text[0] == '-' && text[1] == '-'))
}

/// The kept lines of `query`, separated by line feeds.
pub open spec fn sql_trimmed(query: Seq<char>) -> Seq<char> {
    join(lines(query).filter(|line: Seq<char>| keeps(line)), seq!['\n'])
}

fn keep_line(line: &Vec<char>) -> (out: bool)
    ensures
        out == keeps(line@),
{
    let text = trimmed(line);
    !(text.len() == 0 || (text.len() >= 2 && text[0] == '-' && text[1] == '-'))
}

/// `String::into_boxed_str` keeps the text.
#[verifier::external_body]
fn into_boxed_str(text: String) -> (out: Box<str>)
    ensures
        out@ == text@,
{
    text.into_boxed_str()
}

/// The line itself if it is kept, nothing if it is a comment or blank.
pub fn keep_sql_line(line: &str) -> (out: Option<&str>)
    ensures
        out == if keeps(line@) {
            Some(line)
        } else {
            None
        },
{
    if keep_line(&to_chars(line)) {
        Some(line)
    } else {
        None
    }
}

/// `query` without its comment lines and blank lines.
pub fn sql_trim_boxed(query: &str) -> (out: Box<str>)
    ensures
        out@ == sql_trimmed(query@),
{
    let source = split_lines(&to_chars(query));
    let ghost all = lines(query@);
    let ghost keep = |line: Seq<char>| keeps(line);
    let mut kept: Vec<Vec<char>> = Vec::new();
    let mut i: usize = 0;
    assert(all.take(0).filter(keep) == Seq::<Seq<char>>::empty()) by {
        reveal(Seq::filter);
    }
    while i < source.len()
        invariant
            i <= source.len(),
            views(source@) == all,
            keep == |line: Seq<char>| keeps(line),
            views(kept@) == all.take(i as int).filter(keep),
        decreases source.len() - i,
    {
        let ghost before = views(kept@);
        proof {
            reveal(Seq::filter);
            assert(all.take(i + 1).drop_last() == all.take(i as int));
            assert(all.take(i + 1).last() == source@[i as int]@);
        }
        if keep_line(&source[i]) {
            kept.push(slice_all(&source[i]));
            assert(views(kept@) == before.push(source@[i as int]@));
        }
        i += 1;
    }
    assert(all.take(source.len() as int) == all);
    into_boxed_str(to_string(&join_with(&kept, '\n')))
}

fn slice_all(line: &Vec<char>) -> (out: Vec<char>)
    ensures
        out@ == line@,
{
    crate::chars::slice(line, 0, line.len())
}

/// Keeps [`SqlTrimBoxed`] to the text types of this crate's choosing.
pub trait Sealed {

}

impl Sealed for str {

}

impl Sealed for String {

}

/// Text that can be stripped of SQL comment lines.
pub trait SqlTrimBoxed: Sealed {
    /// The text as characters.
    spec fn text(&self) -> Seq<char>;

    /// The text without its comment lines and blank lines.
    fn sql_trim_boxed(&self) -> (out: Box<str>)
        ensures
            out@ == sql_trimmed(self.text()),
    ;
}

impl SqlTrimBoxed for str {
    open spec fn text(&self) -> Seq<char> {
        self@
    }

    fn sql_trim_boxed(&self) -> (out: Box<str>) {
        sql_trim_boxed(self)
    }
}

impl SqlTrimBoxed for String {
    open spec fn text(&self) -> Seq<char> {
        self@
    }

    fn sql_trim_boxed(&self) -> (out: Box<str>) {
        sql_trim_boxed(self.as_str())
    }
}

} // verus!
