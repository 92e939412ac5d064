//! The errors that memory management hands back to its callers.

use vstd::prelude::*;

verus! {

#[derive(Clone, Copy, Debug, PartialEq, Eq, Structural)]
pub enum MemoryError {
    /// A fixed-capacity table has no room left.
    ArrayTooSmall,
    /// An index lies beyond the entries that are in use.
    InvalidSize,
    /// A region ends at or before the address where it starts.
    EntrySizeIsNegative,
    /// The request is understood but cannot be served.
    NotSupported,
    /// Nothing backs the requested page.
    NotFound,
    /// A backing object was asked and failed to answer.
    DidNotHandleException,
}

/// The errors of the kernel's small containers.
#[derive(Clone, Copy, Debug, PartialEq, Eq, Structural)]
pub enum QuantumError {
    NoSpaceRemaining,
    IndexOutOfRange,
    BufferFull,
    OverflowValue,
    NoItem,
    ExistingValue,
}

/// The errors of the file system layer.
#[derive(Clone, Copy, Debug, PartialEq, Eq, Structural)]
pub enum FsError {
    InvalidInput,
    EndOfFile,
    ReadError,
    NotFound,
}

} // verus!
