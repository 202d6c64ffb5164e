//! Errors reported by the library.
use vstd::prelude::*;

verus! {

/// Errors raised while decoding sensor data.
#[derive(Clone, Copy, Debug, PartialEq, Eq)]
pub enum LibraryError {
    /// A buffer does not have the length its memory window requires.
    InvalidData(&'static str),
    /// The memory word at this address holds an error that the code cannot correct.
    Checksum(u16),
    /// A decoded field is outside the range it must lie in.
    Configuration(&'static str),
    /// The status register holds a value with no meaning.
    Status(u16),
}

} // verus!
