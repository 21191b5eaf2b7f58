//! Rules of the pseudo-terminal lifecycle: allocation, spawn, resize and the
//! readiness-driven read and write loops.

pub mod allocate;
pub mod error;
pub mod poll;
pub mod procedure;
pub mod spawn;
pub mod sys;

pub use error::{AllocateError, ResizeError, SpawnError};
