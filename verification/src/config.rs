//! Reading yes-or-no settings.

use crate::chars::{
    ascii_lower, eq_ignore_ascii_case, equal_ignoring_case, extend, extend_str, join, join_all,
    to_chars, to_string, views,
};
use vstd::prelude::*;

pub mod meta;

verus! {

/// The texts that mean "no".
pub open spec fn falsy_values() -> Seq<Seq<char>> {
    seq!["0"@, "false"@, "n"@, "no"@, "off"@]
}

/// The texts that mean "yes".
pub open spec fn truthy_values() -> Seq<Seq<char>> {
    seq!["1"@, "true"@, "y"@, "yes"@, "on"@]
}

/// Whether `value` is one of `choices`, up to the case of ASCII letters.
pub open spec fn is_choice(value: Seq<char>, choices: Seq<Seq<char>>) -> bool {
    exists|i: int| 0 <= i < choices.len() && eq_ignore_ascii_case(value, #[trigger] choices[i])
}

fn falsy() -> (out: Vec<Vec<char>>)
    ensures
        views(out@) == falsy_values(),
{
    let mut out: Vec<Vec<char>> = Vec::new();
    out.push(to_chars("0"));
    out.push(to_chars("false"));
    out.push(to_chars("n"));
    out.push(to_chars("no"));
    out.push(to_chars("off"));
    assert(views(out@) == falsy_values());
    out
}

fn truthy() -> (out: Vec<Vec<char>>)
    ensures
        views(out@) == truthy_values(),
{
    let mut out: Vec<Vec<char>> = Vec::new();
    out.push(to_chars("1"));
    out.push(to_chars("true"));
    out.push(to_chars("y"));
    out.push(to_chars("yes"));
    out.push(to_chars("on"));
    assert(views(out@) == truthy_values());
    out
}

fn any_choice(value: &Vec<char>, choices: &Vec<Vec<char>>) -> (out: bool)
    ensures
        out == is_choice(value@, views(choices@)),
{
    let mut i: usize = 0;
    while i < choices.len()
        invariant
            i <= choices.len(),
            forall|j: int| 0 <= j < i ==> !eq_ignore_ascii_case(value@, #[trigger] views(choices@)[j]),
        decreases choices.len() - i,
    {
        if equal_ignoring_case(value, &choices[i]) {
            assert(eq_ignore_ascii_case(value@, views(choices@)[i as int]));
            return true;
        }
        i += 1;
    }
    false
}

/// Whether `value` means "no": one of `0`, `false`, `n`, `no`, `off`, in any
/// case.
pub fn is_falsy(value: &str) -> (out: bool)
    ensures
        out == is_choice(value@, falsy_values()),
{
    any_choice(&to_chars(value), &falsy())
}

/// Whether `value` means "yes": one of `1`, `true`, `y`, `yes`, `on`, in any
/// case.
pub fn is_truthy(value: &str) -> (out: bool)
    ensures
        out == is_choice(value@, truthy_values()),
{
    any_choice(&to_chars(value), &truthy())
}

/// No text means both "yes" and "no": which of the two is looked for first
/// makes no difference.
pub proof fn lemma_truthy_is_not_falsy(value: Seq<char>)
    ensures
        !(is_choice(value, truthy_values()) && is_choice(value, falsy_values())),
{
    reveal_strlit("0");
    reveal_strlit("false");
    reveal_strlit("n");
    reveal_strlit("no");
    reveal_strlit("off");
    reveal_strlit("1");
    reveal_strlit("true");
    reveal_strlit("y");
    reveal_strlit("yes");
    reveal_strlit("on");
    if is_choice(value, truthy_values()) && is_choice(value, falsy_values()) {
        let i = choose|i: int|
            0 <= i < truthy_values().len() && eq_ignore_ascii_case(
                value,
                #[trigger] truthy_values()[i],
            );
        let j = choose|j: int|
            0 <= j < falsy_values().len() && eq_ignore_ascii_case(
                value,
                #[trigger] falsy_values()[j],
            );
        let yes = truthy_values()[i];
        let no = falsy_values()[j];
        assert(yes.len() == no.len());
        assert(ascii_lower(value[0]) == ascii_lower(yes[0]));
        assert(ascii_lower(value[0]) == ascii_lower(no[0]));
        assert(false);
    }
}

/// A setting as a configuration source presents it.
pub enum Choice<'a> {
    Bool(bool),
    Signed(i64),
    Unsigned(u64),
    Text(&'a str),
}

/// A setting that is no yes-or-no value.
#[derive(Clone, Copy, Debug, PartialEq, Eq, Structural)]
pub enum InvalidChoice {
    /// A signed number other than 0 and 1.
    Signed(i64),
    /// An unsigned number other than 0 and 1.
    Unsigned(u64),
    /// A text that is neither truthy nor falsy.
    Text,
}

/// The yes-or-no value that `choice` stands for, or why it stands for none.
/// A boolean stands for itself, the numbers 0 and 1 for "no" and "yes", and
/// a text for "yes" if it is truthy and for "no" if it is falsy.
pub open spec fn choice_value(choice: Choice<'_>) -> Result<bool, InvalidChoice> {
    match choice {
        Choice::Bool(b) => Ok(b),
        Choice::Signed(n) => if n == 0 || n == 1 {
            Ok(n != 0)
        } else {
            Err(InvalidChoice::Signed(n))
        },
        Choice::Unsigned(n) => if n == 0 || n == 1 {
            Ok(n != 0)
        } else {
            Err(InvalidChoice::Unsigned(n))
        },
        Choice::Text(text) => if is_choice(text@, truthy_values()) {
            Ok(true)
        } else if is_choice(text@, falsy_values()) {
            Ok(false)
        } else {
            Err(InvalidChoice::Text)
        },
    }
}

/// Reads a yes-or-no setting.
pub fn bool_from_choice(choice: Choice<'_>) -> (out: Result<bool, InvalidChoice>)
    ensures
        out == choice_value(choice),
{
    match choice {
        Choice::Bool(b) => Ok(b),
        Choice::Signed(n) => if n == 0 || n == 1 {
            Ok(n != 0)
        } else {
            Err(InvalidChoice::Signed(n))
        },
        Choice::Unsigned(n) => if n == 0 || n == 1 {
            Ok(n != 0)
        } else {
            Err(InvalidChoice::Unsigned(n))
        },
        Choice::Text(text) => if is_truthy(text) {
            Ok(true)
        } else if is_falsy(text) {
            Ok(false)
        } else {
            Err(InvalidChoice::Text)
        },
    }
}

/// `text` between double quotes.
pub open spec fn quoted(text: Seq<char>) -> Seq<char> {
    seq!['"'] + text + seq!['"']
}

/// What a text setting is expected to be: the truthy values, then the falsy
/// ones, each quoted.
pub open spec fn expected_text() -> Seq<char> {
    "Any of ["@ + join(
        (truthy_values() + falsy_values()).map_values(|value: Seq<char>| quoted(value)),
        ", "@,
    ) + "] (case-insensitive)"@
}

impl InvalidChoice {
    /// What was expected in place of the rejected setting.
    pub open spec fn expectation(self) -> Seq<char> {
        match self {
            InvalidChoice::Text => expected_text(),
            _ => "0 or 1"@,
        }
    }

    /// What was expected in place of the rejected setting.
    pub fn expected(&self) -> (out: String)
        ensures
            out@ == self.expectation(),
    {
        match self {
            InvalidChoice::Text => expected_choices(),
            _ => {
                let mut out: Vec<char> = Vec::new();
                extend_str(&mut out, "0 or 1");
                to_string(&out)
            },
        }
    }
}

/// The description of the texts that are accepted as a setting.
pub fn expected_choices() -> (out: String)
    ensures
        out@ == expected_text(),
{
    let mut values = truthy();
    let mut rest = falsy();
    let ghost all = truthy_values() + falsy_values();
    let ghost first = views(values@);
    let ghost second = views(rest@);
    values.append(&mut rest);
    assert(views(values@) == all);
    let ghost wanted = all.map_values(|value: Seq<char>| quoted(value));
    let mut parts: Vec<Vec<char>> = Vec::new();
    let mut i: usize = 0;
    while i < values.len()
        invariant
            i <= values.len(),
            views(values@) == all,
            wanted == all.map_values(|value: Seq<char>| quoted(value)),
            views(parts@) == wanted.take(i as int),
        decreases values.len() - i,
    {
        let mut part: Vec<char> = Vec::new();
        part.push('"');
        extend(&mut part, &values[i]);
        part.push('"');
        proof {
            assert(views(values@)[i as int] == values@[i as int]@);
            assert(part@ == quoted(values@[i as int]@));
            assert(part@ == wanted[i as int]);
        }
        let ghost before = views(parts@);
        parts.push(part);
        assert(views(parts@) == before.push(part@));
        assert(wanted.take(i + 1) == wanted.take(i as int).push(wanted[i as int]));
        i += 1;
    }
    assert(wanted.take(values.len() as int) == wanted);
    let mut out: Vec<char> = Vec::new();
    extend_str(&mut out, "Any of [");
    let list = join_all(&parts, &to_chars(", "));
    extend(&mut out, &list);
    extend_str(&mut out, "] (case-insensitive)");
    to_string(&out)
}

} // verus!
