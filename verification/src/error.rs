//! What can go wrong while the note is loaded.

use crate::text::DecodeError;
use vstd::prelude::*;

verus! {

/// Another instance holds the lock on the note's file.
#[derive(Debug, Clone, Copy, PartialEq, Eq)]
pub struct AlreadyOpen;

impl AlreadyOpen {
    /// The sentence shown to the user.
    pub fn message(&self) -> (text: String)
        ensures
            text@ == "An instance of gluey is already running"@,
    {
        "An instance of gluey is already running".to_owned()
    }
}

/// Why loading the note failed. `E` is the caller's own error value for a
/// failed file operation; it is handed back untouched.
#[derive(Debug, Clone, PartialEq, Eq)]
pub enum LoadError<E> {
    /// The file is locked by another instance.
    AlreadyOpen(AlreadyOpen),
    /// A file operation failed for any other reason.
    Io(E),
    /// The file does not hold UTF-8 text.
    Decode(DecodeError),
}

} // verus!
