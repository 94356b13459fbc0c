//! Classified errors, each with a chain of annotations that grows as the
//! error travels outward.
use vstd::prelude::*;

verus! {

/// The class of a failure.
#[derive(Clone, Copy, Debug, PartialEq, Eq, Structural)]
pub enum ErrorKind {
    /// A named path does not exist.
    NotFound,
    /// A path that was to be created already exists.
    Exist,
    /// The descriptor lacks a right that the operation needs.
    Perm,
    /// The descriptor cannot serve this operation, such as a directory of
    /// another concrete kind handed to a rename.
    Badf,
    /// A path that must name a directory does not.
    NotDir,
    /// A path that must not name a directory does.
    IsDir,
    /// The backing object cannot honour the request.
    NotSupported,
    /// An argument is out of its domain.
    Inval,
    /// A count does not fit the result type.
    Range,
    /// A name is not valid text.
    IllegalByteSequence,
    /// No entry stands at the descriptor.
    NoSuchDescriptor,
    /// The entry at the descriptor is of the other kind.
    WrongKind,
    /// The stream has no seekable position.
    SeekPipe,
    /// Every descriptor number is taken.
    TableFull,
}

/// A failure: its class, and what was being attempted, innermost first.
#[derive(Debug)]
pub struct Error {
    pub kind: ErrorKind,
    pub context: Vec<String>,
}

impl Error {
    pub fn new(kind: ErrorKind) -> (r: Error)
        ensures
            r.kind == kind,
            r.context@.len() == 0,
    {
        Error { kind, context: Vec::new() }
    }

    /// The error annotated with `msg`, after the annotations it already has.
    pub fn context(self, msg: &str) -> (r: Error)
        ensures
            r.kind == self.kind,
            r.context@.len() == self.context@.len() + 1,
            r.context@.subrange(0, self.context@.len() as int) == self.context@,
            r.context@.last()@ == msg@,
    {
        let mut context = self.context;
        context.push(msg.to_owned());
        proof {
            assert(context@.subrange(0, self.context@.len() as int) =~= self.context@);
        }
        Error { kind: self.kind, context }
    }
}

} // verus!
