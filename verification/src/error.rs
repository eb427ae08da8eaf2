//! Errors of the host, and the outcome of reading and parsing a file.

use vstd::prelude::*;

verus! {

/// An error of the host: the text of a failed input or output, or a
/// problem with a module.
#[derive(Debug, Clone, PartialEq, Eq)]
pub enum AppError {
    Io(String),
    Module(String),
}

/// What came of reading a file and parsing its contents: the file was not
/// there, could not be read (with the reason), did not parse (with the
/// reason), or gave a value.
#[derive(Debug)]
pub enum FileRead<T> {
    Missing,
    Unreadable(String),
    Malformed(String),
    Parsed(T),
}

} // verus!
