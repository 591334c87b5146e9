//! Why an operation on a socket did not give what was asked for.

use vstd::prelude::*;

verus! {

/// The ways in which an operation on a socket fails. The first three carry
/// the error number that the system call left behind, as it was.
#[derive(Clone, Copy, Debug, PartialEq, Eq, Structural)]
pub enum Error {
    /// The interface name does not resolve to an interface.
    NoSuchDevice { errno: i32 },
    /// The socket could not be bound to the interface.
    BindFailed { errno: i32 },
    /// Any other system call failed.
    Os { errno: i32 },
    /// A read gave a number of bytes that is the size of no frame.
    UnrecognizedFrameSize { size: usize },
    /// A write took fewer bytes than the frame has.
    WriteTruncated { written: usize, expected: usize },
}

impl Error {
    /// The error number of the failed system call, where there was one.
    pub fn errno(&self) -> (r: Option<i32>)
        ensures
            r == match *self {
                Error::NoSuchDevice { errno } => Some(errno),
                Error::BindFailed { errno } => Some(errno),
                Error::Os { errno } => Some(errno),
                Error::UnrecognizedFrameSize { .. } => None,
                Error::WriteTruncated { .. } => None,
            },
    {
        match *self {
            Error::NoSuchDevice { errno } => Some(errno),
            Error::BindFailed { errno } => Some(errno),
            Error::Os { errno } => Some(errno),
            Error::UnrecognizedFrameSize { .. } => None,
            Error::WriteTruncated { .. } => None,
        }
    }
}

} // verus!
