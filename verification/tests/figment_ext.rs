use caco3::web::figment_ext::{key_path, FigmentExt, RemoveExistingKeyError};
use figment::providers::Serialized;
use figment::Figment;
use serde_json::Value;

fn object(entries: Vec<(&str, Value)>) -> Value {
    let mut object = serde_json::Map::new();
    for (key, value) in entries {
        object.insert(key.to_owned(), value);
    }
    Value::Object(object)
}

fn text(value: &str) -> Value {
    Value::String(value.to_owned())
}

fn get_test_figment() -> Figment {
    Figment::from(Serialized::defaults(object(vec![
        (
            "foo",
            object(vec![
                ("bar", object(vec![("baz", object(vec![("name", text("Baz"))]))])),
                ("s", text("Foo string")),
            ]),
        ),
        ("vec", Value::Array(vec![text("foo"), text("bar"), text("baz")])),
    ])))
}

#[test]
fn remove_existing_keys() {
    let figment = get_test_figment();

    let keys = [
        "foo.bar.baz.name",
        "foo.s",
    ];
    for key in keys {
        assert!(figment.has_key(key));
    }
    let actual = figment.remove_existing_keys(&keys);
    let f = actual.expect("keys removed");
    for key in keys {
        assert!(!f.has_key(key));
    }
}

#[test]
fn remove_missing_key() {
    let figment = get_test_figment();
    let key = "foo.not_exist";
    assert!(!figment.has_key(key));
    let keys = [key];
    let actual = figment.remove_existing_keys(&keys);
    let err = actual.expect_err("key doesn't exist");
    assert!(matches!(err, RemoveExistingKeyError::NotFound(_)));
}

#[test]
fn has_key() {
    let figment = get_test_figment();
    assert!(!figment.has_key(""));
}

#[test]
fn removal_leaves_the_other_keys() {
    let figment = get_test_figment();
    let removed = figment.remove_existing_keys(&["foo.bar"]).unwrap();
    assert!(!removed.has_key("foo.bar"));
    assert!(!removed.has_key("foo.bar.baz"));
    assert!(removed.has_key("foo.s"));
    assert!(removed.has_key("vec"));
    let removed = figment.remove_existing_keys(&["vec"]).unwrap();
    assert!(!removed.has_key("vec"));
    assert!(removed.has_key("foo.bar.baz.name"));
    let unchanged = figment.remove_existing_keys(&[]).unwrap();
    assert!(unchanged.has_key("foo.s"));
    assert!(matches!(
        figment.remove_existing_keys(&["foo.s", "nope", "vec"]),
        Err(RemoveExistingKeyError::NotFound("nope"))
    ));
    assert!(matches!(
        figment.remove_existing_keys(&["foo.s", ""]),
        Err(RemoveExistingKeyError::NotFound(""))
    ));
}

#[test]
fn a_key_is_a_pointer_and_a_field() {
    let path = key_path("foo.bar.baz.name");
    assert_eq!(path.pointer, "/foo/bar/baz");
    assert_eq!(path.field, "name");
    let path = key_path("foo");
    assert_eq!(path.pointer, "");
    assert_eq!(path.field, "foo");
    let path = key_path("");
    assert_eq!(path.pointer, "");
    assert_eq!(path.field, "");
    let path = key_path("a..b.");
    assert_eq!(path.pointer, "/a//b");
    assert_eq!(path.field, "");
}

#[test]
fn a_key_that_lies_in_no_object_is_not_removed() {
    let figment = get_test_figment();
    assert!(figment.has_key("vec."));
    assert!(matches!(
        figment.remove_existing_keys(&["vec."]),
        Err(RemoveExistingKeyError::NotAnObject("vec."))
    ));
}

#[test]
fn a_configuration_that_is_no_dictionary_cannot_be_read() {
    let figment = Figment::from(Serialized::defaults(5u8));
    assert!(matches!(
        figment.remove_existing_keys(&[]),
        Err(RemoveExistingKeyError::NotSerializable)
    ));
}
