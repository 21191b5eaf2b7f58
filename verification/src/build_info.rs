//! What is known of a build: its target and profile, when it was made, and
//! the commit and compiler it was made from.

use crate::chars::{
    hexdigit, is_ascii_hexdigit, slice, to_chars, to_string, trim, trim_end, trim_end_len,
    trimmed,
};
use crate::time::clock::{since_unix_epoch, system_now, whole_seconds};
use std::str::FromStr;
use vstd::prelude::*;
use vstd::string::*;

verus! {

#[derive(Clone, Debug, PartialEq, Eq)]
pub struct BuildInfo {
    pub build_profile: String,
    pub build_target: String,
    pub epoch_seconds: u64,
    pub git_sha: Option<GitSha>,
    pub rustc_version: String,
}

/// The hexadecimal name of a git commit, in full or shortened.
#[derive(Debug, PartialEq, Eq)]
pub struct GitSha(String);

/// The length of the shortest commit name that git writes.
pub const MIN_SHORT_COMMIT_ID_LEN: usize = 7;

/// The length of a full commit name under SHA-256.
pub const POSSIBLE_FULL_COMMIT_ID_LEN: usize = 64;

/// Whether `id` can name a commit: 7 to 64 hexadecimal digits.
pub open spec fn valid_id(id: Seq<char>) -> bool {
    &&& MIN_SHORT_COMMIT_ID_LEN <= id.len() <= POSSIBLE_FULL_COMMIT_ID_LEN
    &&& forall|i: int| 0 <= i < id.len() ==> is_ascii_hexdigit(#[trigger] id[i])
}

fn valid_chars(id: &Vec<char>) -> (out: bool)
    ensures
        out == valid_id(id@),
{
    if id.len() < MIN_SHORT_COMMIT_ID_LEN || id.len() > POSSIBLE_FULL_COMMIT_ID_LEN {
        return false;
    }
    let mut i: usize = 0;
    while i < id.len()
        invariant
            i <= id.len(),
            forall|j: int| 0 <= j < i ==> is_ascii_hexdigit(#[trigger] id@[j]),
        decreases id.len() - i,
    {
        if !hexdigit(id[i]) {
            return false;
        }
        i += 1;
    }
    true
}

/// Whether `id` can name a commit.
pub fn is_valid_id(id: &str) -> (out: bool)
    ensures
        out == valid_id(id@),
{
    valid_chars(&to_chars(id))
}

impl View for GitSha {
    type V = Seq<char>;

    closed spec fn view(&self) -> Seq<char> {
        self.0@
    }
}

impl GitSha {
    /// Every commit name is valid.
    #[verifier::type_invariant]
    spec fn valid(self) -> bool {
        valid_id(self.0@)
    }

    /// The name as text: 7 to 64 hexadecimal digits.
    pub fn as_str(&self) -> (out: &str)
        ensures
            out@ == self@,
            valid_id(self@),
    {
        proof {
            use_type_invariant(self);
        }
        self.0.as_str()
    }

    /// The first `max_length` characters of the name, or all of it where it
    /// has no more.
    pub fn shorten(&self, max_length: usize) -> (out: &str)
        ensures
            out@ == if max_length < self@.len() {
                self@.take(max_length as int)
            } else {
                self@
            },
    {
        let id = self.0.as_str();
        let len = id.unicode_len();
        if max_length < len {
            id.substring_char(0, max_length)
        } else {
            id
        }
    }

    /// The commit name `id`, if it is one.
    pub fn parse(id: &str) -> (out: Result<Self, ()>)
        ensures
            match out {
                Ok(sha) => sha@ == id@ && valid_id(id@),
                Err(_) => !valid_id(id@),
            },
    {
        if is_valid_id(id) {
            Ok(Self(id.to_owned()))
        } else {
            Err(())
        }
    }

    /// The commit name that `git rev-parse` wrote to its output: the output
    /// without the whitespace at its end, if that is a commit name.
    pub fn from_output(stdout: &str) -> (out: Option<Self>)
        ensures
            match out {
                Some(sha) => sha@ == trim_end(stdout@) && valid_id(sha@),
                None => !valid_id(trim_end(stdout@)),
            },
    {
        let text = to_chars(stdout);
        let len = trim_end_len(&text);
        let id = slice(&text, 0, len);
        if valid_chars(&id) {
            Some(Self(to_string(&id)))
        } else {
            None
        }
    }
}

impl Clone for GitSha {
    fn clone(&self) -> (out: Self)
        ensures
            out@ == self@,
    {
        proof {
            use_type_invariant(self);
        }
        GitSha(self.0.clone())
    }
}

impl FromStr for GitSha {
    type Err = ();

    /// The commit name `s`, if it is one.
    fn from_str(s: &str) -> (out: Result<Self, Self::Err>)
        ensures
            match out {
                Ok(sha) => sha@ == s@ && valid_id(s@),
                Err(_) => !valid_id(s@),
            },
    {
        GitSha::parse(s)
    }
}

/// `std::str::Utf8Error`: where and why bytes are not UTF-8.
#[verifier::external_type_specification]
#[verifier::external_body]
pub struct ExUtf8Error(std::str::Utf8Error);

/// `std::str::from_utf8` accepts exactly the byte sequences that are valid
/// UTF-8, and the string that it hands out has those bytes.
pub assume_specification<'a>[ std::str::from_utf8 ](bytes: &'a [u8]) -> (out: Result<
    &'a str,
    std::str::Utf8Error,
>)
    ensures
        out is Ok <==> vstd::utf8::valid_utf8(bytes@),
        out matches Ok(text) ==> text.spec_bytes() == bytes@,
;

/// The compiler's version as `rustc --version` wrote it to its output: the
/// output as text, without the whitespace at either end. There is none
/// where the output is not UTF-8.
pub fn rustc_version_from_output(stdout: &[u8]) -> (out: Option<String>)
    ensures
        match out {
            Some(version) => vstd::utf8::valid_utf8(stdout@) && version@ == trim(
                vstd::utf8::decode_utf8(stdout@),
            ),
            None => !vstd::utf8::valid_utf8(stdout@),
        },
{
    match std::str::from_utf8(stdout) {
        Ok(text) => {
            proof {
                vstd::utf8::encode_utf8_decode_utf8(text@);
            }
            Some(to_string(&trimmed(&to_chars(text))))
        },
        Err(_) => None,
    }
}

/// The whole seconds from the start of 1970 to now, by the system clock.
/// There are none where the clock stands before 1970.
pub fn get_epoch_seconds() -> Option<u64> {
    match since_unix_epoch(&system_now()) {
        Ok(duration) => Some(whole_seconds(&duration)),
        Err(_) => None,
    }
}

} // verus!
