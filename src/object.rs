//! What the core asks of file objects, and the check that keeps rename and
//! hard-link within one concrete kind of directory.
use vstd::prelude::*;

use crate::error::{Error, ErrorKind};

verus! {

/// The concrete mechanism behind a directory object. Cross-directory
/// operations resolve both paths through one mechanism, so both directories
/// must be of the same kind.
#[derive(Clone, Copy, Debug, PartialEq, Eq, Structural)]
pub enum BackingKind {
    /// The host file system, reached through capability handles.
    Host,
    /// A directory held in memory.
    Memory,
    /// Any other mechanism, told apart by its number.
    Other(u32),
}

/// A file-like object: the part of its surface that the core consults.
pub trait WasiFile {
    /// Whether the object is an interactive terminal.
    fn isatty(&self) -> bool;
}

/// Admits a rename or a hard link from a directory of kind `source` to one of
/// kind `dest` only when the kinds agree; otherwise the operation fails as a
/// bad descriptor before anything is touched.
pub fn check_same_backing(source: BackingKind, dest: BackingKind) -> (r: Result<(), Error>)
    ensures
        r is Ok <==> source == dest,
        r matches Err(e) ==> e.kind == ErrorKind::Badf,
{
    if source == dest {
        Ok(())
    } else {
        Err(Error::new(ErrorKind::Badf).context("destination directory is of another kind"))
    }
}

} // verus!
