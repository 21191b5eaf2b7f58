//! Finding the workspace that a directory belongs to: the nearest directory,
//! at or above it, whose `Cargo.toml` has workspace settings.

use crate::chars::{extend_str, starts_with, to_string};
use crate::io::error_text;
use vstd::prelude::*;

verus! {

#[derive(Debug)]
pub enum DiscoverWorkspaceError {
    Io(std::io::Error),
    NotFound,
}

/// What was found in a directory.
pub enum Probe {
    /// No `Cargo.toml`.
    Missing,
    /// A `Cargo.toml` that could not be read.
    Unreadable(std::io::Error),
    /// A `Cargo.toml` without workspace settings.
    Package,
    /// A `Cargo.toml` with workspace settings.
    Workspace,
}

/// What the search does next.
pub enum Search {
    /// The directory is the workspace.
    Found,
    /// Go on in the parent directory.
    Ascend,
    /// Give up.
    Failed(DiscoverWorkspaceError),
}

/// What the search does after `probe`. A workspace ends it, and so does a
/// file that cannot be read; otherwise it goes on in the parent, and is at
/// its end without success where there is none.
pub open spec fn search_after(probe: Probe, has_parent: bool) -> Search {
    match probe {
        Probe::Workspace => Search::Found,
        Probe::Unreadable(error) => Search::Failed(DiscoverWorkspaceError::Io(error)),
        _ => if has_parent {
            Search::Ascend
        } else {
            Search::Failed(DiscoverWorkspaceError::NotFound)
        },
    }
}

/// What the search does after `probe`.
pub fn discover_step(probe: Probe, has_parent: bool) -> (out: Search)
    ensures
        out == search_after(probe, has_parent),
{
    match probe {
        Probe::Workspace => Search::Found,
        Probe::Unreadable(error) => Search::Failed(DiscoverWorkspaceError::Io(error)),
        _ => if has_parent {
            Search::Ascend
        } else {
            Search::Failed(DiscoverWorkspaceError::NotFound)
        },
    }
}

impl DiscoverWorkspaceError {
    /// The message of this error, given the text of its cause, if it has
    /// one.
    pub fn describe(&self, detail: &str) -> (text: String)
        ensures
            text@ == match *self {
                DiscoverWorkspaceError::Io(_) => "io error: "@ + detail@,
                DiscoverWorkspaceError::NotFound => "not found workspace directory"@,
            },
    {
        let mut out: Vec<char> = Vec::new();
        match self {
            DiscoverWorkspaceError::Io(_) => {
                extend_str(&mut out, "io error: ");
                extend_str(&mut out, detail);
            },
            DiscoverWorkspaceError::NotFound => {
                extend_str(&mut out, "not found workspace directory");
            },
        }
        to_string(&out)
    }

    /// The message of this error. The text of an I/O error is the one that
    /// the standard library renders.
    pub fn message(&self) -> (text: String)
        ensures
            match *self {
                DiscoverWorkspaceError::Io(_) => starts_with(text@, "io error: "@),
                DiscoverWorkspaceError::NotFound => text@ == "not found workspace directory"@,
            },
    {
        match self {
            DiscoverWorkspaceError::Io(error) => {
                let detail = error_text(error);
                let text = self.describe(detail.as_str());
                assert(text@.take("io error: "@.len() as int) == "io error: "@);
                text
            },
            DiscoverWorkspaceError::NotFound => self.describe(""),
        }
    }
}

} // verus!
