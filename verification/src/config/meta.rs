//! Looking up a value in an untyped TOML configuration by its dotted path.

use crate::chars::{split, split_at, to_chars, to_string, views};
use vstd::prelude::*;

verus! {

/// `toml::Value`: a TOML value.
#[verifier::external_type_specification]
#[verifier::external_body]
pub struct ExTomlValue(toml::Value);

/// The entries of a TOML value: those of its table where it is one, and
/// none where it is anything else.
pub uninterp spec fn entries(value: toml::Value) -> Map<Seq<char>, toml::Value>;

/// `toml::Value::get` with a text index: the entry of `key`, if the value is
/// a table that has one.
#[verifier::external_body]
fn get_entry<'a>(value: &'a toml::Value, key: &str) -> (out: Option<&'a toml::Value>)
    ensures
        match out {
            Some(entry) => entries(*value).contains_key(key@) && entries(*value)[key@] == *entry,
            None => !entries(*value).contains_key(key@),
        },
{
    value.get(key)
}

/// The entry of `key` in `value`, if it has one.
pub open spec fn lookup(value: toml::Value, key: Seq<char>) -> Option<toml::Value> {
    if entries(value).contains_key(key) {
        Some(entries(value)[key])
    } else {
        None
    }
}

/// The value that `components` lead to from `root`, one table after
/// another. There is none where a component is missing or where what it is
/// looked up in is no table. No component at all leads to `root` itself.
pub open spec fn descend(root: toml::Value, components: Seq<Seq<char>>) -> Option<toml::Value>
    decreases components.len(),
{
    if components.len() == 0 {
        Some(root)
    } else {
        match lookup(root, components.first()) {
            Some(entry) => descend(entry, components.drop_first()),
            None => None,
        }
    }
}

/// What separates the components of a path.
pub const PATH_SEP: char = '.';

/// The components of `path`: the texts between its dots, of which a path
/// without a dot has one.
pub fn path_components(path: &str) -> (out: Vec<String>)
    ensures
        out@.map_values(|component: String| component@) == split(path@, PATH_SEP),
        out.len() >= 1,
{
    let parts = split_at(&to_chars(path), PATH_SEP);
    let mut out: Vec<String> = Vec::new();
    let mut i: usize = 0;
    while i < parts.len()
        invariant
            i <= parts.len(),
            out@.map_values(|component: String| component@) == views(parts@).take(i as int),
        decreases parts.len() - i,
    {
        let ghost before = out@.map_values(|component: String| component@);
        let component = to_string(&parts[i]);
        out.push(component);
        assert(out@.map_values(|component: String| component@) == before.push(parts@[i as int]@));
        assert(views(parts@).take(i + 1) == views(parts@).take(i as int).push(
            views(parts@)[i as int],
        ));
        i += 1;
    }
    assert(views(parts@).take(parts.len() as int) == views(parts@));
    out
}

/// The value that `components` lead to from `root`.
pub fn find_in<'a>(root: &'a toml::Value, components: &Vec<String>) -> (out: Option<
    &'a toml::Value,
>)
    ensures
        match out {
            Some(found) => descend(*root, components@.map_values(|component: String| component@))
                == Some(*found),
            None => descend(*root, components@.map_values(|component: String| component@))
                is None,
        },
{
    let ghost path = components@.map_values(|component: String| component@);
    let mut target = root;
    let mut i: usize = 0;
    assert(path.skip(0) == path);
    while i < components.len()
        invariant
            i <= components.len(),
            path == components@.map_values(|component: String| component@),
            descend(*target, path.skip(i as int)) == descend(*root, path),
        decreases components.len() - i,
    {
        proof {
            assert(path.skip(i as int).first() == components@[i as int]@);
            assert(path.skip(i as int).drop_first() == path.skip(i + 1));
        }
        target = match get_entry(target, components[i].as_str()) {
            Some(entry) => entry,
            None => { return None; },
        };
        i += 1;
    }
    Some(target)
}

/// The value at the dotted `path` below `root`, if there is one: the one
/// that the components of the path lead to.
pub fn find<'a>(root: &'a toml::Value, path: &str) -> (out: Option<&'a toml::Value>)
    ensures
        match out {
            Some(found) => descend(*root, split(path@, PATH_SEP)) == Some(*found),
            None => descend(*root, split(path@, PATH_SEP)) is None,
        },
{
    find_in(root, &path_components(path))
}

} // verus!
