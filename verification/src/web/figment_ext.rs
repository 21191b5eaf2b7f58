//! Removing keys from a `figment::Figment`.

use crate::chars::{extend, split, split_at, to_chars, to_string, views};
use figment::Figment;
use vstd::prelude::*;

verus! {

/// `figment::Figment`: configuration merged from several sources.
#[verifier::external_type_specification]
#[verifier::external_body]
pub struct ExFigment(figment::Figment);

/// `figment::Error`: why a configuration could not be read.
#[verifier::external_type_specification]
#[verifier::external_body]
pub struct ExFigmentError(figment::Error);

/// `figment::Metadata`: where a configuration value came from.
#[verifier::external_type_specification]
#[verifier::external_body]
pub struct ExMetadata(figment::Metadata);

/// `serde_json::Value`: a JSON value.
#[verifier::external_type_specification]
#[verifier::external_body]
pub struct ExJsonValue(serde_json::Value);

/// `serde_json::Map`: the entries of a JSON object.
#[verifier::external_type_specification]
#[verifier::external_body]
#[verifier::reject_recursive_types(K)]
#[verifier::reject_recursive_types(V)]
pub struct ExJsonMap<K, V>(serde_json::Map<K, V>);

/// `Figment::extract` as a `serde_json::Value`: the merged configuration as
/// JSON, or the error that kept it from being read.
#[verifier::external_body]
fn extract_json(figment: &Figment) -> Result<serde_json::Value, figment::Error> {
    figment.extract::<serde_json::Value>()
}

/// The keys of a configuration: the dotted paths at which it has a value
/// whose source it knows.
pub uninterp spec fn keys(figment: figment::Figment) -> Set<Seq<char>>;

/// `Figment::find_metadata`: where the value at `key` came from, if the
/// configuration has a value there. The configuration is merged when it is
/// made, so the answer depends on it and on the key alone.
#[verifier::external_body]
fn find_metadata<'a>(figment: &'a Figment, key: &str) -> (out: Option<&'a figment::Metadata>)
    ensures
        out is Some <==> keys(*figment).contains(key@),
{
    figment.find_metadata(key)
}

/// `Figment::from` on `Serialized::defaults`: a configuration whose one
/// source is `value`.
#[verifier::external_body]
fn from_json(value: serde_json::Value) -> Figment {
    Figment::from(figment::providers::Serialized::defaults(value))
}

/// The value that a JSON pointer leads to in a document, if it leads to
/// one.
pub uninterp spec fn pointed(document: serde_json::Value, pointer: Seq<char>) -> Option<
    serde_json::Value,
>;

/// The members of a JSON value that is an object, by their names. A value
/// that is no object has none to speak of.
pub uninterp spec fn members(value: serde_json::Value) -> Option<Map<Seq<char>, serde_json::Value>>;

/// The entries of a JSON object, by their names.
pub uninterp spec fn object_entries(object: serde_json::Map<String, serde_json::Value>) -> Map<
    Seq<char>,
    serde_json::Value,
>;

/// `serde_json::Value::pointer_mut`: the value that the JSON pointer leads
/// to, if it leads to one. The pointer goes on leading to that value when it
/// is changed through the reference, the document changes in nothing while
/// that value is left as it is, and a pointer that leads nowhere changes
/// nothing.
#[verifier::external_body]
fn pointer_mut<'a>(value: &'a mut serde_json::Value, pointer: &str) -> (out: Option<
    &'a mut serde_json::Value,
>)
    ensures
        match out {
            Some(found) => pointed(*old(value), pointer@) == Some(*found) && pointed(
                *final(value),
                pointer@,
            ) == Some(*final(found)) && (*final(found) == *found ==> *final(value) == *old(
                value,
            )),
            None => pointed(*old(value), pointer@) is None && *final(value) == *old(value),
        },
{
    value.pointer_mut(pointer)
}

/// `serde_json::Value::as_object_mut`: the entries of the value, if it is an
/// object. What is done to the entries is done to the members of the value,
/// and a value that is no object is left as it is.
#[verifier::external_body]
fn as_object_mut(value: &mut serde_json::Value) -> (out: Option<
    &mut serde_json::Map<String, serde_json::Value>,
>)
    ensures
        match out {
            Some(object) => members(*old(value)) == Some(object_entries(*object)) && members(
                *final(value),
            ) == Some(object_entries(*final(object))),
            None => members(*old(value)) is None && *final(value) == *old(value),
        },
{
    value.as_object_mut()
}

/// `serde_json::Map::remove`: takes the entry of `field` out of the object
/// and hands out its value, if there is one. The other entries stay.
#[verifier::external_body]
fn remove_entry(object: &mut serde_json::Map<String, serde_json::Value>, field: &str) -> (out:
    Option<serde_json::Value>)
    ensures
        object_entries(*final(object)) == object_entries(*old(object)).remove(field@),
        out == if object_entries(*old(object)).contains_key(field@) {
            Some(object_entries(*old(object))[field@])
        } else {
            None
        },
{
    object.remove(field)
}

/// Keeps [`FigmentExt`] to `Figment`.
pub trait Sealed {

}

impl Sealed for Figment {

}

/// Why keys could not be removed.
#[derive(Debug)]
#[non_exhaustive]
pub enum RemoveExistingKeyError<'a> {
    /// The configuration has no value at this key.
    NotFound(&'a str),
    /// The configuration cannot be read as JSON.
    NotSerializable,
    /// The key does not lie in an object of the configuration.
    NotAnObject(&'a str),
}

/// Where a key lies in a JSON document: the JSON pointer to the object that
/// holds it, and its name in that object.
pub struct KeyPath {
    pub pointer: String,
    pub field: String,
}

/// The JSON pointer that leads through `components`: each one after a slash.
pub open spec fn pointer_to(components: Seq<Seq<char>>) -> Seq<char>
    decreases components.len(),
{
    if components.len() == 0 {
        Seq::empty()
    } else {
        pointer_to(components.drop_last()) + seq!['/'] + components.last()
    }
}

/// Where the dotted `key` lies: its last component is the name, and the
/// components before it lead to the object.
pub fn key_path(key: &str) -> (out: KeyPath)
    ensures
        out.pointer@ == pointer_to(split(key@, '.').drop_last()),
        out.field@ == split(key@, '.').last(),
{
    let parts = split_at(&to_chars(key), '.');
    let ghost components = split(key@, '.').drop_last();
    let mut pointer: Vec<char> = Vec::new();
    let mut i: usize = 0;
    while i + 1 < parts.len()
        invariant
            i + 1 <= parts.len(),
            views(parts@) == split(key@, '.'),
            components == split(key@, '.').drop_last(),
            pointer@ == pointer_to(components.take(i as int)),
        decreases parts.len() - i,
    {
        proof {
            assert(components.take(i + 1).drop_last() == components.take(i as int));
            assert(components.take(i + 1).last() == views(parts@)[i as int]);
        }
        pointer.push('/');
        extend(&mut pointer, &parts[i]);
        i += 1;
    }
    assert(components.take(i as int) == components);
    assert(views(parts@).last() == parts@[parts.len() - 1]@);
    KeyPath { pointer: to_string(&pointer), field: to_string(&parts[parts.len() - 1]) }
}

/// The members of the object that holds `key` in `document`, if the key
/// lies in an object: the components of the key before the last lead to it.
pub open spec fn holder(document: serde_json::Value, key: Seq<char>) -> Option<
    Map<Seq<char>, serde_json::Value>,
> {
    match pointed(document, pointer_to(split(key, '.').drop_last())) {
        Some(parent) => members(parent),
        None => None,
    }
}

/// Takes `key` out of the object that holds it, and tells whether there is
/// such an object. Where there is, that object loses the member that the
/// last component of the key names, if it has one, and keeps its other
/// members. Where there is none, the document is left as it is.
fn remove_key(value: &mut serde_json::Value, key: &str) -> (out: bool)
    ensures
        out == holder(*old(value), key@) is Some,
        out ==> holder(*final(value), key@) == Some(
            holder(*old(value), key@)->Some_0.remove(split(key@, '.').last()),
        ),
        !out ==> *final(value) == *old(value),
{
    let path = key_path(key);
    match pointer_mut(value, path.pointer.as_str()) {
        Some(parent) => match as_object_mut(parent) {
            Some(object) => {
                let _ = remove_entry(object, path.field.as_str());
                true
            },
            None => false,
        },
        None => false,
    }
}

/// Extension trait for `figment::Figment`.
pub trait FigmentExt: Sized + Sealed {
    /// Remove existing keys.
    ///
    /// This method error if key doesn't exist: the error names one of
    /// `keys`, and an empty key never exists.
    fn remove_existing_keys<'a>(&self, keys: &'a [&'a str]) -> (out: Result<
        Self,
        RemoveExistingKeyError<'a>,
    >)
        ensures
            match out {
                Err(RemoveExistingKeyError::NotFound(key)) => keys@.contains(key),
                Err(RemoveExistingKeyError::NotAnObject(key)) => keys@.contains(key),
                _ => true,
            },
            out is Ok ==> forall|i: int| 0 <= i < keys.len() ==> (#[trigger] keys[i])@.len() > 0,
    ;

    /// Check for key existent.
    ///
    /// blank key return `false`.
    fn has_key(&self, key: &str) -> (out: bool)
        ensures
            key@.len() == 0 ==> !out,
    ;
}

impl FigmentExt for Figment {
    fn remove_existing_keys<'a>(&self, keys: &'a [&'a str]) -> (out: Result<
        Self,
        RemoveExistingKeyError<'a>,
    >) {
        let mut value = match extract_json(self) {
            Ok(value) => value,
            Err(_) => { return Err(RemoveExistingKeyError::NotSerializable); },
        };
        let mut i: usize = 0;
        while i < keys.len()
            invariant
                i <= keys.len(),
                forall|j: int| 0 <= j < i ==> (#[trigger] keys[j])@.len() > 0,
            decreases keys.len() - i,
        {
            let key = keys[i];
            if !self.has_key(key) {
                return Err(RemoveExistingKeyError::NotFound(key));
            }
            if !remove_key(&mut value, key) {
                return Err(RemoveExistingKeyError::NotAnObject(key));
            }
            i += 1;
        }
        Ok(from_json(value))
    }

    fn has_key(&self, key: &str) -> (out: bool)
        ensures
            out == (keys(*self).contains(key@) && key@.len() > 0),
    {
        find_metadata(self, key).is_some() && !key.is_empty()
    }
}

} // verus!
