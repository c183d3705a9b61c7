//! `String#scan`: the matches of a pattern in a string.

use vstd::prelude::*;

verus! {

/// Why `String#scan` gave no result.
#[derive(Clone, Copy, Debug, PartialEq, Eq, Hash, Structural)]
pub enum Error {
    /// The argument is not a pattern.
    WrongType,
    /// The receiver is not a string, or the pattern was never compiled.
    Fatal,
}

} // verus!
