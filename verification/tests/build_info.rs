use caco3::build_info::{get_epoch_seconds, is_valid_id, rustc_version_from_output, GitSha};
use std::str::FromStr;

#[test]
fn test_valid_id() {
    assert!(is_valid_id("1460ba33e88a6caff86948da489be527fa442a9a"));
}

#[test]
fn ids_that_are_not_valid() {
    assert!(is_valid_id("1460ba3"));
    assert!(is_valid_id("ABCDEF0"));
    assert!(!is_valid_id("1460ba"));
    assert!(!is_valid_id(""));
    assert!(!is_valid_id("1460ba3g"));
    assert!(!is_valid_id("1460ba3 "));
    assert!(is_valid_id(&"a".repeat(64)));
    assert!(!is_valid_id(&"a".repeat(65)));
    assert!(!is_valid_id("１２３４５６７"));
}

#[test]
fn a_git_sha_is_shortened_by_characters() {
    let sha = GitSha::from_str("1460ba33e88a6caff86948da489be527fa442a9a").unwrap();
    assert_eq!(sha.as_str(), "1460ba33e88a6caff86948da489be527fa442a9a");
    assert_eq!(sha.shorten(7), "1460ba3");
    assert_eq!(sha.shorten(0), "");
    assert_eq!(sha.shorten(40), "1460ba33e88a6caff86948da489be527fa442a9a");
    assert_eq!(sha.shorten(1000), "1460ba33e88a6caff86948da489be527fa442a9a");
    assert_eq!(sha.clone(), sha);
    assert!(GitSha::from_str("nothex!").is_err());
    assert!(GitSha::parse("123456").is_err());
    assert_eq!(GitSha::parse("1234567").unwrap().as_str(), "1234567");
}

#[test]
fn a_git_sha_is_read_from_the_output_of_git() {
    let sha = GitSha::from_output("1460ba33e88a6caff86948da489be527fa442a9a\n").unwrap();
    assert_eq!(sha.as_str(), "1460ba33e88a6caff86948da489be527fa442a9a");
    assert_eq!(GitSha::from_output("1460ba3 \r\n").unwrap().as_str(), "1460ba3");
    assert!(GitSha::from_output(" 1460ba33e88a6caff8\n").is_none());
    assert!(GitSha::from_output("fatal: not a git repository\n").is_none());
    assert!(GitSha::from_output("").is_none());
}

#[test]
fn the_compiler_version_is_read_from_its_output() {
    assert_eq!(
        rustc_version_from_output(b"rustc 1.80.0 (051478957 2024-07-21)\n").unwrap(),
        "rustc 1.80.0 (051478957 2024-07-21)"
    );
    assert_eq!(rustc_version_from_output(b"  x \t").unwrap(), "x");
    assert_eq!(rustc_version_from_output(b"").unwrap(), "");
    assert!(rustc_version_from_output(&[0x72, 0xff, 0x73]).is_none());
}

#[test]
fn the_clock_stands_after_1970() {
    assert!(get_epoch_seconds().unwrap() > 1_600_000_000);
}
