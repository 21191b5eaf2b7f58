//! Errors of the pseudo-terminal lifecycle. Each one records the step that
//! failed and wraps the operating system's error, nothing else.

use crate::chars::{extend_str, starts_with, to_string};
use crate::io::error_text;
use vstd::prelude::*;

verus! {

/// What separates the failed step's description from the cause's text.
pub open spec fn separator() -> Seq<char> {
    ": "@
}

/// Failure to allocate a pseudo-terminal pair.
#[derive(Debug)]
pub enum AllocateError {
    Open(std::io::Error),
    Grant(std::io::Error),
    Unlock(std::io::Error),
    GetChildName(std::io::Error),
    OpenChild(std::io::Error),
}

/// Failure to spawn a process on the child side of a pseudo-terminal.
#[derive(Debug)]
pub enum SpawnError {
    DuplicateStdio(std::io::Error),
    CreateSession(std::io::Error),
    SetControllingTerminal(std::io::Error),
    Spawn(std::io::Error),
    WrapAsyncFd(std::io::Error),
}

/// Failure to resize a pseudo-terminal.
#[derive(Debug)]
pub struct ResizeError(pub std::io::Error);

impl AllocateError {
    /// The operating system's error that this error wraps.
    pub open spec fn cause(self) -> std::io::Error {
        match self {
            AllocateError::Open(e) => e,
            AllocateError::Grant(e) => e,
            AllocateError::Unlock(e) => e,
            AllocateError::GetChildName(e) => e,
            AllocateError::OpenChild(e) => e,
        }
    }

    /// What the failed step was doing.
    pub open spec fn context(self) -> Seq<char> {
        match self {
            AllocateError::Open(_) => "failed to open new pseudo terminal"@,
            AllocateError::Grant(_) => "failed to grant permissions on child terminal device"@,
            AllocateError::Unlock(_) => "failed to unlock child terminal device"@,
            AllocateError::GetChildName(_) => "failed to get name of child terminal device"@,
            AllocateError::OpenChild(_) => "failed to open child terminal device"@,
        }
    }

    /// The operating system's error that this error wraps.
    pub fn source(&self) -> (cause: &std::io::Error)
        ensures
            *cause == self.cause(),
    {
        match self {
            AllocateError::Open(e) => e,
            AllocateError::Grant(e) => e,
            AllocateError::Unlock(e) => e,
            AllocateError::GetChildName(e) => e,
            AllocateError::OpenChild(e) => e,
        }
    }

    /// The message of this error, given the text of its cause.
    pub fn describe(&self, detail: &str) -> (text: String)
        ensures
            text@ == self.context() + separator() + detail@,
    {
        let mut out: Vec<char> = Vec::new();
        match self {
            AllocateError::Open(_) => extend_str(&mut out, "failed to open new pseudo terminal"),
            AllocateError::Grant(_) => extend_str(
                &mut out,
                "failed to grant permissions on child terminal device",
            ),
            AllocateError::Unlock(_) => extend_str(
                &mut out,
                "failed to unlock child terminal device",
            ),
            AllocateError::GetChildName(_) => extend_str(
                &mut out,
                "failed to get name of child terminal device",
            ),
            AllocateError::OpenChild(_) => extend_str(
                &mut out,
                "failed to open child terminal device",
            ),
        }
        extend_str(&mut out, ": ");
        extend_str(&mut out, detail);
        to_string(&out)
    }

    /// The message of this error: what the failed step was doing, then the
    /// text of the cause as the standard library renders it.
    pub fn message(&self) -> (text: String)
        ensures
            starts_with(text@, self.context() + separator()),
    {
        let detail = error_text(self.source());
        let text = self.describe(detail.as_str());
        assert(text@.take((self.context() + separator()).len() as int) == self.context()
            + separator());
        text
    }
}

impl SpawnError {
    /// The operating system's error that this error wraps.
    pub open spec fn cause(self) -> std::io::Error {
        match self {
            SpawnError::DuplicateStdio(e) => e,
            SpawnError::CreateSession(e) => e,
            SpawnError::SetControllingTerminal(e) => e,
            SpawnError::Spawn(e) => e,
            SpawnError::WrapAsyncFd(e) => e,
        }
    }

    /// What the failed step was doing.
    pub open spec fn context(self) -> Seq<char> {
        match self {
            SpawnError::DuplicateStdio(_) =>
                "failed to duplicate file descriptor for standard I/O stream"@,
            SpawnError::CreateSession(_) => "failed to create new process group"@,
            SpawnError::SetControllingTerminal(_) =>
                "failed to set controlling terminal for new process group"@,
            SpawnError::Spawn(_) => "failed to spawn child process"@,
            SpawnError::WrapAsyncFd(_) =>
                "failed to wrap pseudo terminal file descriptor for use with tokio"@,
        }
    }

    /// The operating system's error that this error wraps.
    pub fn source(&self) -> (cause: &std::io::Error)
        ensures
            *cause == self.cause(),
    {
        match self {
            SpawnError::DuplicateStdio(e) => e,
            SpawnError::CreateSession(e) => e,
            SpawnError::SetControllingTerminal(e) => e,
            SpawnError::Spawn(e) => e,
            SpawnError::WrapAsyncFd(e) => e,
        }
    }

    /// The message of this error, given the text of its cause.
    pub fn describe(&self, detail: &str) -> (text: String)
        ensures
            text@ == self.context() + separator() + detail@,
    {
        let mut out: Vec<char> = Vec::new();
        match self {
            SpawnError::DuplicateStdio(_) => extend_str(
                &mut out,
                "failed to duplicate file descriptor for standard I/O stream",
            ),
            SpawnError::CreateSession(_) => extend_str(
                &mut out,
                "failed to create new process group",
            ),
            SpawnError::SetControllingTerminal(_) => extend_str(
                &mut out,
                "failed to set controlling terminal for new process group",
            ),
            SpawnError::Spawn(_) => extend_str(&mut out, "failed to spawn child process"),
            SpawnError::WrapAsyncFd(_) => extend_str(
                &mut out,
                "failed to wrap pseudo terminal file descriptor for use with tokio",
            ),
        }
        extend_str(&mut out, ": ");
        extend_str(&mut out, detail);
        to_string(&out)
    }

    /// The message of this error: what the failed step was doing, then the
    /// text of the cause as the standard library renders it.
    pub fn message(&self) -> (text: String)
        ensures
            starts_with(text@, self.context() + separator()),
    {
        let detail = error_text(self.source());
        let text = self.describe(detail.as_str());
        assert(text@.take((self.context() + separator()).len() as int) == self.context()
            + separator());
        text
    }
}

impl ResizeError {
    /// What the failed operation was doing.
    pub open spec fn context() -> Seq<char> {
        "failed to resize terminal device"@
    }

    /// The operating system's error that this error wraps.
    pub fn source(&self) -> (cause: &std::io::Error)
        ensures
            *cause == self.0,
    {
        &self.0
    }

    /// The message of this error, given the text of its cause.
    pub fn describe(&self, detail: &str) -> (text: String)
        ensures
            text@ == Self::context() + separator() + detail@,
    {
        let mut out: Vec<char> = Vec::new();
        extend_str(&mut out, "failed to resize terminal device");
        extend_str(&mut out, ": ");
        extend_str(&mut out, detail);
        to_string(&out)
    }

    /// The message of this error: what the failed operation was doing, then
    /// the text of the cause as the standard library renders it.
    pub fn message(&self) -> (text: String)
        ensures
            starts_with(text@, Self::context() + separator()),
    {
        let detail = error_text(self.source());
        let text = self.describe(detail.as_str());
        assert(text@.take((Self::context() + separator()).len() as int) == Self::context()
            + separator());
        text
    }
}

} // verus!
