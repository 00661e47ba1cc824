//! Translation of raw native error codes into structured failures.

use vstd::prelude::*;

verus! {

/// Raw code: a call named an object the native layer does not know.
pub const ERR_INVALID_NAME: u32 = 0xA001;
/// Raw code: a call passed an enumerant the native layer does not accept.
pub const ERR_INVALID_ENUM: u32 = 0xA002;
/// Raw code: a call passed a value out of range.
pub const ERR_INVALID_VALUE: u32 = 0xA003;
/// Raw code: the call is not legal in the current state.
pub const ERR_INVALID_OPERATION: u32 = 0xA004;
/// Raw code: the native allocator is exhausted.
pub const ERR_OUT_OF_MEMORY: u32 = 0xA005;

/// Structured failure surfaced by every fallible constructor or mutator.
///
/// `UnsupportedFormat` is raised by the library itself when a sample encoding
/// has no native mapping; the other variants translate raw native codes, with
/// `Unknown` carrying a code outside the documented set.
#[derive(Clone, Copy, Debug, PartialEq, Eq, Structural)]
pub enum Error {
    InvalidName,
    InvalidEnum,
    InvalidValue,
    InvalidOperation,
    OutOfMemory,
    UnsupportedFormat,
    Unknown(u32),
}

/// The structured meaning of a raw native error code.
pub open spec fn error_of_code(code: u32) -> Error {
    if code == ERR_INVALID_NAME {
        Error::InvalidName
    } else if code == ERR_INVALID_ENUM {
        Error::InvalidEnum
    } else if code == ERR_INVALID_VALUE {
        Error::InvalidValue
    } else if code == ERR_INVALID_OPERATION {
        Error::InvalidOperation
    } else if code == ERR_OUT_OF_MEMORY {
        Error::OutOfMemory
    } else {
        Error::Unknown(code)
    }
}

impl Error {
    /// Maps a raw native error code to its structured counterpart.
    pub fn from_code(code: u32) -> (e: Error)
        ensures
            e == error_of_code(code),
    {
        if code == ERR_INVALID_NAME {
            Error::InvalidName
        } else if code == ERR_INVALID_ENUM {
            Error::InvalidEnum
        } else if code == ERR_INVALID_VALUE {
            Error::InvalidValue
        } else if code == ERR_INVALID_OPERATION {
            Error::InvalidOperation
        } else if code == ERR_OUT_OF_MEMORY {
            Error::OutOfMemory
        } else {
            Error::Unknown(code)
        }
    }
}

} // verus!
