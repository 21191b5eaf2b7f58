//! Values handed to the operating system's terminal primitives.

use crate::pty::error::ResizeError;
use vstd::prelude::*;

verus! {

/// Largest value a terminal-size field can hold.
pub const MAX_DIMENSION: u16 = 0xffff;

/// A terminal dimension as the 16-bit size field stores it: values that do
/// not fit saturate at [`MAX_DIMENSION`].
pub open spec fn clamp_dimension(value: u32) -> u16 {
    if value <= MAX_DIMENSION {
        value as u16
    } else {
        MAX_DIMENSION
    }
}

/// How a descriptor is opened.
#[derive(Clone, Copy, Debug, PartialEq, Eq, Structural)]
pub struct OpenFlags {
    /// For reading and writing.
    pub read_write: bool,
    /// Without becoming the controlling terminal of the process.
    pub no_controlling_terminal: bool,
    /// So that no operation on it blocks.
    pub non_blocking: bool,
    /// So that it is closed in a process that replaces this one.
    pub close_on_exec: bool,
}

/// How the master side of a pseudo-terminal is opened: with every flag set.
pub fn master_flags() -> (out: OpenFlags)
    ensures
        out.read_write,
        out.no_controlling_terminal,
        out.non_blocking,
        out.close_on_exec,
{
    OpenFlags {
        read_write: true,
        no_controlling_terminal: true,
        non_blocking: true,
        close_on_exec: true,
    }
}

/// The descriptor of standard input, which the hook of a spawn makes the
/// controlling terminal.
pub const STDIN: i32 = 0;

/// The terminal size record of a size-change request.
#[derive(Clone, Copy, Debug, PartialEq, Eq, Structural)]
pub struct WindowSize {
    pub columns: u16,
    pub rows: u16,
    pub x_pixels: u16,
    pub y_pixels: u16,
}

impl WindowSize {
    /// The record for a terminal of `width` columns and `height` rows.
    /// Oversized values are clamped, never rejected.
    pub fn new(width: u32, height: u32) -> (size: WindowSize)
        ensures
            size.columns == clamp_dimension(width),
            size.rows == clamp_dimension(height),
            size.x_pixels == 0,
            size.y_pixels == 0,
    {
        WindowSize {
            columns: saturate(width),
            rows: saturate(height),
            x_pixels: 0,
            y_pixels: 0,
        }
    }
}

fn saturate(value: u32) -> (out: u16)
    ensures
        out == clamp_dimension(value),
{
    if value <= 0xffff {
        value as u16
    } else {
        MAX_DIMENSION
    }
}

/// Clamping keeps every value that fits, maps every other value to the
/// maximum, and keeps the order of any two values: a size is never rejected
/// for its magnitude.
pub proof fn lemma_clamp_saturates(a: u32, b: u32)
    ensures
        a <= MAX_DIMENSION ==> clamp_dimension(a) == a,
        a > MAX_DIMENSION ==> clamp_dimension(a) == MAX_DIMENSION,
        clamp_dimension(a) <= a,
        a <= b ==> clamp_dimension(a) <= clamp_dimension(b),
        clamp_dimension(clamp_dimension(a) as u32) == clamp_dimension(a),
{
}

/// What a return value of the operating system means: a negative value
/// reports failure, and the error is then the one that the system recorded
/// last.
pub open spec fn checked(value: i32, last_error: std::io::Error) -> Result<i32, std::io::Error> {
    if value >= 0 {
        Ok(value)
    } else {
        Err(last_error)
    }
}

/// Checks the return value of a system call that reports failure by a
/// negative number. `last_error` is the error that the system recorded last.
pub fn check_return(value: i32, last_error: std::io::Error) -> (out: Result<i32, std::io::Error>)
    ensures
        out == checked(value, last_error),
{
    if value >= 0 {
        Ok(value)
    } else {
        Err(last_error)
    }
}

/// The result of a size-change request, given what the control operation
/// returned. It depends on that return value alone: the size that was asked
/// for plays no part.
pub fn resize_result(control_return: i32, last_error: std::io::Error) -> (out: Result<
    (),
    ResizeError,
>)
    ensures
        control_return >= 0 ==> out == Ok::<(), ResizeError>(()),
        control_return < 0 ==> out == Err::<(), ResizeError>(ResizeError(last_error)),
{
    match check_return(control_return, last_error) {
        Ok(_) => Ok(()),
        Err(e) => Err(ResizeError(e)),
    }
}

} // verus!
