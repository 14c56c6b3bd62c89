//! Status-code taxonomy: the chip's foreign entry points report failure as
//! signed integer codes; [`classify`] maps every such code to a semantic
//! [`ErrorKind`], and [`MCP2210Error`] carries the classified kind (or a
//! decode failure of this crate's own) back to the caller as a value.

use vstd::prelude::*;

verus! {

/// Semantic meaning of a raw signed status code, total over all codes: a code
/// with no documented mapping becomes `Unhandled` carrying the raw code.
#[derive(Clone, Copy, Debug, PartialEq, Eq, Structural)]
pub enum ErrorKind {
    NoError,
    Unknown,
    InvalidParameter,
    BufferTooSmall,
    NullPointer,
    MemoryAllocation,
    InvalidFileHandle,
    DeviceNotFound,
    InvalidDeviceIndex,
    NoMatchingDevice,
    InternalBufferTooSmall,
    HandleRetrievalFailed,
    ConnectionAlreadyOpen,
    ConnectionCloseFailed,
    SerialNumberNotFound,
    Unhandled(i32),
}

/// The documented mapping from raw status codes to kinds.
pub open spec fn spec_classify(code: i32) -> ErrorKind {
    if code == 0 {
        ErrorKind::NoError
    } else if code == -1 {
        ErrorKind::Unknown
    } else if code == -2 {
        ErrorKind::InvalidParameter
    } else if code == -3 {
        ErrorKind::BufferTooSmall
    } else if code == -10 {
        ErrorKind::NullPointer
    } else if code == -20 {
        ErrorKind::MemoryAllocation
    } else if code == -30 {
        ErrorKind::InvalidFileHandle
    } else if code == -100 {
        ErrorKind::DeviceNotFound
    } else if code == -101 {
        ErrorKind::InvalidDeviceIndex
    } else if code == -103 {
        ErrorKind::NoMatchingDevice
    } else if code == -104 {
        ErrorKind::InternalBufferTooSmall
    } else if code == -105 {
        ErrorKind::HandleRetrievalFailed
    } else if code == -106 {
        ErrorKind::ConnectionAlreadyOpen
    } else if code == -107 {
        ErrorKind::ConnectionCloseFailed
    } else if code == -108 {
        ErrorKind::SerialNumberNotFound
    } else {
        ErrorKind::Unhandled(code)
    }
}

/// Classifies a raw status code. Total and deterministic: every signed 32-bit
/// input yields exactly the kind that [`spec_classify`] gives it.
pub fn classify(code: i32) -> (kind: ErrorKind)
    ensures
        kind == spec_classify(code),
{
    match code {
        0 => ErrorKind::NoError,
        -1 => ErrorKind::Unknown,
        -2 => ErrorKind::InvalidParameter,
        -3 => ErrorKind::BufferTooSmall,
        -10 => ErrorKind::NullPointer,
        -20 => ErrorKind::MemoryAllocation,
        -30 => ErrorKind::InvalidFileHandle,
        -100 => ErrorKind::DeviceNotFound,
        -101 => ErrorKind::InvalidDeviceIndex,
        -103 => ErrorKind::NoMatchingDevice,
        -104 => ErrorKind::InternalBufferTooSmall,
        -105 => ErrorKind::HandleRetrievalFailed,
        -106 => ErrorKind::ConnectionAlreadyOpen,
        -107 => ErrorKind::ConnectionCloseFailed,
        -108 => ErrorKind::SerialNumberNotFound,
        _ => ErrorKind::Unhandled(code),
    }
}

/// What went wrong, by origin.
#[derive(Clone, Copy, Debug, PartialEq, Eq, Structural)]
pub enum ErrorCause {
    /// A foreign call reported a negative status code or a sentinel handle;
    /// the code is classified per [`classify`].
    Communication(ErrorKind),
    /// The device path returned by the open call is not valid text.
    PathDecode,
    /// A configuration byte lies outside its enumeration's valid range.
    ConfigDecode,
}

/// Error value returned by every fallible operation of this crate.
#[derive(Clone, Copy, Debug, PartialEq, Eq, Structural)]
pub struct MCP2210Error(pub ErrorCause);

/// The error that stands for a foreign call's failure code.
pub open spec fn spec_communication_error(code: i32) -> MCP2210Error {
    MCP2210Error(ErrorCause::Communication(spec_classify(code)))
}

/// Builds the error for a foreign call that reported `code`.
pub fn communication_error(code: i32) -> (e: MCP2210Error)
    ensures
        e == spec_communication_error(code),
{
    MCP2210Error(ErrorCause::Communication(classify(code)))
}

} // verus!
