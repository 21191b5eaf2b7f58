use caco3::config::{bool_from_choice, expected_choices, is_falsy, is_truthy, Choice, InvalidChoice};

#[test]
fn test_is_yes() {
    assert!(is_truthy("1"));
    assert!(is_truthy("true"));
    assert!(is_truthy("y"));
    assert!(is_truthy("Y"));
    assert!(is_truthy("yes"));
    assert!(is_truthy("on"));

    assert!(!is_truthy("n"));
}

#[test]
fn test_is_no() {
    assert!(is_falsy("0"));
    assert!(is_falsy("false"));
    assert!(is_falsy("n"));
    assert!(is_falsy("N"));
    assert!(is_falsy("no"));
    assert!(is_falsy("off"));

    assert!(!is_falsy("y"));
}

#[test]
fn test_deserialize() {
    let falsy = Ok(false);
    assert_eq!(bool_from_choice(Choice::Text("0")), falsy);
    assert_eq!(bool_from_choice(Choice::Text("false")), falsy);
    assert_eq!(bool_from_choice(Choice::Text("False")), falsy);
    assert_eq!(bool_from_choice(Choice::Text("n")), falsy);
    assert_eq!(bool_from_choice(Choice::Text("N")), falsy);
    assert_eq!(bool_from_choice(Choice::Text("no")), falsy);
    assert_eq!(bool_from_choice(Choice::Text("off")), falsy);
    assert_eq!(bool_from_choice(Choice::Unsigned(0)), falsy);
    assert_eq!(bool_from_choice(Choice::Bool(false)), falsy);

    let truthy = Ok(true);
    assert_eq!(bool_from_choice(Choice::Text("1")), truthy);
    assert_eq!(bool_from_choice(Choice::Text("true")), truthy);
    assert_eq!(bool_from_choice(Choice::Text("True")), truthy);
    assert_eq!(bool_from_choice(Choice::Text("y")), truthy);
    assert_eq!(bool_from_choice(Choice::Text("Y")), truthy);
    assert_eq!(bool_from_choice(Choice::Text("yes")), truthy);
    assert_eq!(bool_from_choice(Choice::Text("on")), truthy);
    assert_eq!(bool_from_choice(Choice::Unsigned(1)), truthy);
    assert_eq!(bool_from_choice(Choice::Bool(true)), truthy);
}

#[test]
fn choices_that_are_rejected() {
    assert_eq!(bool_from_choice(Choice::Signed(0)), Ok(false));
    assert_eq!(bool_from_choice(Choice::Signed(1)), Ok(true));
    assert_eq!(bool_from_choice(Choice::Signed(-1)), Err(InvalidChoice::Signed(-1)));
    assert_eq!(bool_from_choice(Choice::Signed(2)), Err(InvalidChoice::Signed(2)));
    assert_eq!(bool_from_choice(Choice::Unsigned(2)), Err(InvalidChoice::Unsigned(2)));
    assert_eq!(bool_from_choice(Choice::Text("maybe")), Err(InvalidChoice::Text));
    assert_eq!(bool_from_choice(Choice::Text("")), Err(InvalidChoice::Text));
    assert_eq!(bool_from_choice(Choice::Text(" yes")), Err(InvalidChoice::Text));
}

#[test]
fn what_is_expected_of_a_choice() {
    assert_eq!(
        expected_choices(),
        r##"Any of ["1", "true", "y", "yes", "on", "0", "false", "n", "no", "off"] (case-insensitive)"##
    );
    assert_eq!(InvalidChoice::Text.expected(), expected_choices());
    assert_eq!(InvalidChoice::Signed(5).expected(), "0 or 1");
    assert_eq!(InvalidChoice::Unsigned(5).expected(), "0 or 1");
}

#[test]
fn truthy_and_falsy_ignore_ascii_case_only() {
    assert!(is_truthy("TRUE"));
    assert!(is_truthy("oN"));
    assert!(is_falsy("OFF"));
    assert!(is_falsy("FaLsE"));
    assert!(!is_truthy(""));
    assert!(!is_falsy(""));
    assert!(!is_truthy("yes "));
    assert!(!is_truthy("ｙ"));
    assert!(!is_falsy("1"));
    assert!(!is_truthy("0"));
}
