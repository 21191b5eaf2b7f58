//! The operating system's error value, as this crate carries it.

use vstd::prelude::*;

verus! {

/// `std::io::Error`: an opaque value that the rules of this crate move
/// around and never look into.
#[verifier::external_type_specification]
#[verifier::external_body]
pub struct ExIoError(std::io::Error);

/// The text that the `Display` impl of `std::io::Error` writes for `err`.
/// The standard library takes it from the platform, so nothing is claimed
/// of it.
#[verifier::external_body]
pub(crate) fn error_text(err: &std::io::Error) -> String {
    format!("{err}")
}

} // verus!
