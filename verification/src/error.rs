use vstd::prelude::*;

verus! {

/// Failure kinds of the storage engine.
///
/// `Io` stands for any underlying filesystem or transport failure,
/// `FileNotFound` for a lookup of an identifier that holds no blob, and
/// `InvalidFileData` is reserved for malformed stored content (no
/// operation currently produces it).
#[derive(Clone, Copy, Debug, PartialEq, Eq, Structural)]
pub enum FileSystemError {
    Io,
    FileNotFound,
    InvalidFileData,
}

} // verus!
