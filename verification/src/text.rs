//! Text layout.

use crate::chars::{
    extend, join, join_with, lines, repeat, slice, split_lines, to_chars, to_string, trim_end,
    trim_end_len, views,
};
use vstd::prelude::*;

verus! {

/// One line of indented text: `width` copies of `ch`, then the line; without
/// the whitespace at the end if `trim` is set.
pub open spec fn indented_line(width: nat, ch: char, trim: bool, line: Seq<char>) -> Seq<char> {
    let padded = repeat(ch, width) + line;
    if trim {
        trim_end(padded)
    } else {
        padded
    }
}

/// `input` with every line indented, the lines separated by line feeds. An
/// empty input counts as one empty line.
pub open spec fn indented(width: nat, ch: char, trim: bool, input: Seq<char>) -> Seq<char> {
    if input.len() == 0 {
        indented_line(width, ch, trim, Seq::empty())
    } else {
        join(lines(input).map_values(|line: Seq<char>| indented_line(width, ch, trim, line)), seq!['\n'])
    }
}

fn indent_line(width: usize, ch: char, trim: bool, line: &Vec<char>) -> (out: Vec<char>)
    ensures
        out@ == indented_line(width as nat, ch, trim, line@),
{
    let mut out: Vec<char> = Vec::new();
    let mut i: usize = 0;
    while i < width
        invariant
            i <= width,
            out@ == repeat(ch, i as nat),
        decreases width - i,
    {
        out.push(ch);
        i += 1;
    }
    extend(&mut out, line);
    if trim {
        let len = trim_end_len(&out);
        slice(&out, 0, len)
    } else {
        out
    }
}

/// Indents every line of `input` by `width` copies of `ch`. With `trim_end`
/// set, whitespace at the end of each indented line is removed, so that a
/// blank line stays blank.
pub fn indent(width: usize, ch: char, trim_end: bool, input: &str) -> (out: String)
    ensures
        out@ == indented(width as nat, ch, trim_end, input@),
{
    let text = to_chars(input);
    if text.len() == 0 {
        let line = indent_line(width, ch, trim_end, &text);
        assert(text@ == Seq::<char>::empty());
        return to_string(&line);
    }
    let source = split_lines(&text);
    let ghost wanted = lines(input@).map_values(
        |line: Seq<char>| indented_line(width as nat, ch, trim_end, line),
    );
    let mut done: Vec<Vec<char>> = Vec::new();
    let mut i: usize = 0;
    while i < source.len()
        invariant
            i <= source.len(),
            views(source@) == lines(input@),
            wanted == lines(input@).map_values(
                |line: Seq<char>| indented_line(width as nat, ch, trim_end, line),
            ),
            views(done@) == wanted.take(i as int),
        decreases source.len() - i,
    {
        let line = indent_line(width, ch, trim_end, &source[i]);
        proof {
            assert(views(source@)[i as int] == source@[i as int]@);
            assert(line@ == wanted[i as int]);
        }
        let ghost before = views(done@);
        done.push(line);
        assert(views(done@) == before.push(line@));
        assert(wanted.take(i + 1) == wanted.take(i as int).push(wanted[i as int]));
        i += 1;
    }
    assert(wanted.take(source.len() as int) == wanted);
    let joined = join_with(&done, '\n');
    to_string(&joined)
}

} // verus!
