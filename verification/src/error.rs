use vstd::prelude::*;

verus! {

/// Failures of the library's parsers and protocol handlers.
#[derive(Debug, Clone, Copy, PartialEq, Eq)]
pub enum Error {
    /// A field was read past the end of the bytes at hand (an I/O
    /// `UnexpectedEof` in a stream).
    UnexpectedEof,
    /// The bytes at hand are not a valid message of the expected kind (an
    /// I/O `InvalidData` in a stream).
    InvalidData(&'static str),
    /// A failure that has no variant of its own.
    Custom(&'static str),
    NoVideoTarget,
    NoVideoSource,
    RTPTypeNotImplemented(u8),
}

} // verus!
