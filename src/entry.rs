//! The payload of a descriptor: a backing object paired with the rights
//! granted over it.
use vstd::prelude::*;

use crate::error::{Error, ErrorKind};
use crate::rights::{bits_subset, lemma_and_subset, lemma_subset_trans, DirCaps, FileCaps};

verus! {

/// Which of the two kinds of entry a descriptor holds.
#[derive(Clone, Copy, Debug, PartialEq, Eq, Structural)]
pub enum EntryKind {
    File,
    Dir,
}

/// A file-like object and the file rights granted over it.
pub struct FileEntry<F> {
    pub caps: FileCaps,
    pub file: F,
}

impl<F> FileEntry<F> {
    pub fn new(caps: FileCaps, file: F) -> (r: FileEntry<F>)
        ensures
            r.caps == caps,
            r.file == file,
    {
        FileEntry { caps, file }
    }

    /// Succeeds exactly when every right in `caps` was granted.
    pub fn capable_of(&self, caps: FileCaps) -> (r: Result<(), Error>)
        ensures
            r is Ok <==> caps.subset_of(self.caps),
            r matches Err(e) ==> e.kind == ErrorKind::Perm,
    {
        if self.caps.contains(caps) {
            Ok(())
        } else {
            Err(Error::new(ErrorKind::Perm).context("file rights"))
        }
    }
}

/// A directory-like object, the directory rights granted over it, the file
/// rights it hands to what is opened through it, and, for a preopened root,
/// the path under which the guest sees it.
pub struct DirEntry<D> {
    pub caps: DirCaps,
    pub file_caps: FileCaps,
    pub preopen_path: Option<String>,
    pub dir: D,
}

impl<D> DirEntry<D> {
    pub fn new(caps: DirCaps, file_caps: FileCaps, preopen_path: Option<String>, dir: D) -> (r:
        DirEntry<D>)
        ensures
            r.caps == caps,
            r.file_caps == file_caps,
            r.preopen_path == preopen_path,
            r.dir == dir,
    {
        DirEntry { caps, file_caps, preopen_path, dir }
    }

    /// Succeeds exactly when every directory right in `caps` was granted.
    pub fn capable_of_dir(&self, caps: DirCaps) -> (r: Result<(), Error>)
        ensures
            r is Ok <==> caps.subset_of(self.caps),
            r matches Err(e) ==> e.kind == ErrorKind::Perm,
    {
        if self.caps.contains(caps) {
            Ok(())
        } else {
            Err(Error::new(ErrorKind::Perm).context("directory rights"))
        }
    }

    /// Succeeds exactly when every right in `caps` may be handed to children.
    pub fn capable_of_file(&self, caps: FileCaps) -> (r: Result<(), Error>)
        ensures
            r is Ok <==> caps.subset_of(self.file_caps),
            r matches Err(e) ==> e.kind == ErrorKind::Perm,
    {
        if self.file_caps.contains(caps) {
            Ok(())
        } else {
            Err(Error::new(ErrorKind::Perm).context("rights for files under the directory"))
        }
    }

    /// The directory rights of a sub-directory opened with `requested`.
    pub fn child_dir_caps(&self, requested: DirCaps) -> (r: DirCaps)
        ensures
            r.bits == requested.bits & self.caps.bits,
            r.subset_of(self.caps),
    {
        requested.intersect(self.caps)
    }

    /// The file rights of a file opened through this directory with `requested`.
    pub fn child_file_caps(&self, requested: FileCaps) -> (r: FileCaps)
        ensures
            r.bits == requested.bits & self.file_caps.bits,
            r.subset_of(self.file_caps),
    {
        requested.intersect(self.file_caps)
    }

    /// The entry for a sub-directory `dir` opened through this one, with the
    /// rights the caller asked for narrowed to those this one may grant.
    pub fn child_dir(&self, requested: DirCaps, requested_files: FileCaps, dir: D) -> (r:
        DirEntry<D>)
        ensures
            r.caps.bits == requested.bits & self.caps.bits,
            r.file_caps.bits == requested_files.bits & self.file_caps.bits,
            r.caps.subset_of(self.caps),
            r.file_caps.subset_of(self.file_caps),
            r.preopen_path is None,
            r.dir == dir,
    {
        DirEntry::new(self.child_dir_caps(requested), self.child_file_caps(requested_files), None, dir)
    }

    /// The entry for a file `file` opened through this directory, with the
    /// rights the caller asked for narrowed to those this one may grant.
    pub fn child_file<F>(&self, requested: FileCaps, file: F) -> (r: FileEntry<F>)
        ensures
            r.caps.bits == requested.bits & self.file_caps.bits,
            r.caps.subset_of(self.file_caps),
            r.file == file,
    {
        FileEntry::new(self.child_file_caps(requested), file)
    }
}

/// What a table holds at a descriptor.
pub enum Entry<F, D> {
    File(FileEntry<F>),
    Dir(DirEntry<D>),
}

impl<F, D> Entry<F, D> {
    pub open spec fn spec_kind(&self) -> EntryKind {
        match self {
            Entry::File(_) => EntryKind::File,
            Entry::Dir(_) => EntryKind::Dir,
        }
    }

    pub fn kind(&self) -> (r: EntryKind)
        ensures
            r == self.spec_kind(),
    {
        match self {
            Entry::File(_) => EntryKind::File,
            Entry::Dir(_) => EntryKind::Dir,
        }
    }

    /// A directory installed as a root of the guest's file system.
    pub open spec fn spec_is_preopen(&self) -> bool {
        match self {
            Entry::Dir(d) => d.preopen_path is Some,
            Entry::File(_) => false,
        }
    }
}

/// The rights left after narrowing `start` by each request of `requests` in
/// turn, as happens along a chain of directories opened one under another.
pub open spec fn narrowed(start: u32, requests: Seq<u32>) -> u32
    decreases requests.len(),
{
    if requests.len() == 0 {
        start
    } else {
        requests.last() & narrowed(start, requests.drop_last())
    }
}

/// Along any chain of derivations, each descriptor's rights lie within those
/// of every descriptor before it: rights narrow and never widen.
pub proof fn lemma_rights_monotone(start: u32, requests: Seq<u32>, i: int, j: int)
    requires
        0 <= i <= j <= requests.len(),
    ensures
        bits_subset(narrowed(start, requests.subrange(0, j)), narrowed(start, requests.subrange(0, i))),
    decreases j - i,
{
    let a = narrowed(start, requests.subrange(0, j));
    if i == j {
        assert(a & a == a) by (bit_vector);
    } else {
        let shorter = requests.subrange(0, j - 1);
        assert(requests.subrange(0, j).drop_last() =~= shorter);
        let b = narrowed(start, shorter);
        lemma_and_subset(requests[j - 1], b);
        lemma_rights_monotone(start, requests, i, j - 1);
        lemma_subset_trans(a, b, narrowed(start, requests.subrange(0, i)));
    }
}

/// A parent, a child directory opened through it and a grandchild file opened
/// through that: the grandchild's file rights lie within the child's
/// grantable file rights, which lie within the parent's.
pub proof fn lemma_grandchild_rights<D, F>(
    parent: DirEntry<D>,
    child: DirEntry<D>,
    grandchild: FileEntry<F>,
    dir_request: DirCaps,
    child_request: FileCaps,
    file_request: FileCaps,
)
    requires
        child.caps.bits == dir_request.bits & parent.caps.bits,
        child.file_caps.bits == child_request.bits & parent.file_caps.bits,
        grandchild.caps.bits == file_request.bits & child.file_caps.bits,
    ensures
        grandchild.caps.subset_of(child.file_caps),
        child.file_caps.subset_of(parent.file_caps),
        child.caps.subset_of(parent.caps),
        grandchild.caps.subset_of(parent.file_caps),
{
    lemma_and_subset(file_request.bits, child.file_caps.bits);
    lemma_and_subset(child_request.bits, parent.file_caps.bits);
    lemma_and_subset(dir_request.bits, parent.caps.bits);
    lemma_subset_trans(grandchild.caps.bits, child.file_caps.bits, parent.file_caps.bits);
}

} // verus!
