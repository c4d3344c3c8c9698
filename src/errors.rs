//! The error type of the library.
use vstd::prelude::*;

verus! {

/// Why a conversion failed.
#[derive(Debug, Clone, Copy, PartialEq, Eq, Structural)]
pub enum Error {
    /// The string holds a zero byte, which a C string can only have as its terminator.
    InvalidCString,
}

/// The result type of the library's fallible operations.
pub type Result<T> = core::result::Result<T, Error>;

} // verus!
