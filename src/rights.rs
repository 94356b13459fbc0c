//! Capability bitmasks: the rights a descriptor holds over a file and over a
//! directory, and the rule by which a derived descriptor's rights narrow.
use vstd::prelude::*;

verus! {

/// Synchronise the file's data.
pub const FILE_DATASYNC: u32 = 0x1;

/// Read from the file.
pub const FILE_READ: u32 = 0x2;

/// Move the file position.
pub const FILE_SEEK: u32 = 0x4;

/// Change the descriptor flags.
pub const FILE_FDSTAT_SET_FLAGS: u32 = 0x8;

/// Synchronise the file's data and metadata.
pub const FILE_SYNC: u32 = 0x10;

/// Report the file position.
pub const FILE_TELL: u32 = 0x20;

/// Write to the file.
pub const FILE_WRITE: u32 = 0x40;

/// Give advice on the access pattern.
pub const FILE_ADVISE: u32 = 0x80;

/// Allocate space in the file.
pub const FILE_ALLOCATE: u32 = 0x100;

/// Read the file's attributes.
pub const FILE_FILESTAT_GET: u32 = 0x200;

/// Change the file's size.
pub const FILE_FILESTAT_SET_SIZE: u32 = 0x400;

/// Change the file's access and modification times.
pub const FILE_FILESTAT_SET_TIMES: u32 = 0x800;

/// Wait for the file to become readable or writable.
pub const FILE_POLL_READWRITE: u32 = 0x1000;

/// Every file right.
pub const FILE_ALL: u32 = 0x1fff;

/// Create a sub-directory.
pub const DIR_CREATE_DIRECTORY: u32 = 0x1;

/// Create a file.
pub const DIR_CREATE_FILE: u32 = 0x2;

/// Be the source directory of a hard link.
pub const DIR_LINK_SOURCE: u32 = 0x4;

/// Be the target directory of a hard link.
pub const DIR_LINK_TARGET: u32 = 0x8;

/// Open files and directories under this one.
pub const DIR_OPEN: u32 = 0x10;

/// List the directory's contents.
pub const DIR_READDIR: u32 = 0x20;

/// Read the target of a symbolic link.
pub const DIR_READLINK: u32 = 0x40;

/// Be the source directory of a rename.
pub const DIR_RENAME_SOURCE: u32 = 0x80;

/// Be the target directory of a rename.
pub const DIR_RENAME_TARGET: u32 = 0x100;

/// Create a symbolic link.
pub const DIR_SYMLINK: u32 = 0x200;

/// Remove an empty sub-directory.
pub const DIR_REMOVE_DIRECTORY: u32 = 0x400;

/// Remove a file or a symbolic link.
pub const DIR_UNLINK_FILE: u32 = 0x800;

/// Read the attributes of a named path.
pub const DIR_PATH_FILESTAT_GET: u32 = 0x1000;

/// Change the times of a named path.
pub const DIR_PATH_FILESTAT_SET_TIMES: u32 = 0x2000;

/// Read the directory's own attributes.
pub const DIR_FILESTAT_GET: u32 = 0x4000;

/// Change the directory's own times.
pub const DIR_FILESTAT_SET_TIMES: u32 = 0x8000;

/// Every directory right.
pub const DIR_ALL: u32 = 0xffff;

/// `a` holds no bit that `b` lacks.
pub open spec fn bits_subset(a: u32, b: u32) -> bool {
    a & b == a
}

/// An intersection lies within both of its operands.
pub proof fn lemma_and_subset(a: u32, b: u32)
    ensures
        bits_subset(a & b, a),
        bits_subset(a & b, b),
{
    assert((a & b) & a == a & b) by (bit_vector);
    assert((a & b) & b == a & b) by (bit_vector);
}

/// Inclusion of bitmasks is transitive.
pub proof fn lemma_subset_trans(a: u32, b: u32, c: u32)
    requires
        bits_subset(a, b),
        bits_subset(b, c),
    ensures
        bits_subset(a, c),
{
    assert(a & b == a && b & c == b ==> a & c == a) by (bit_vector);
}

/// File-level capabilities held by a descriptor, as a bitmask.
#[derive(Clone, Copy, Debug, PartialEq, Eq, Structural)]
pub struct FileCaps {
    pub bits: u32,
}

impl FileCaps {
    pub open spec fn subset_of(self, other: FileCaps) -> bool {
        bits_subset(self.bits, other.bits)
    }

    pub fn empty() -> (r: FileCaps)
        ensures
            r.bits == 0,
    {
        FileCaps { bits: 0 }
    }

    pub fn all() -> (r: FileCaps)
        ensures
            r.bits == FILE_ALL,
    {
        FileCaps { bits: FILE_ALL }
    }

    /// The rights among `bits` that this library knows of.
    pub fn from_bits(bits: u32) -> (r: FileCaps)
        ensures
            r.bits == bits & FILE_ALL,
    {
        FileCaps { bits: bits & FILE_ALL }
    }

    pub fn contains(&self, other: FileCaps) -> (r: bool)
        ensures
            r == other.subset_of(*self),
    {
        other.bits & self.bits == other.bits
    }

    /// The rights held by both.
    pub fn intersect(&self, other: FileCaps) -> (r: FileCaps)
        ensures
            r.bits == self.bits & other.bits,
            r.subset_of(*self),
            r.subset_of(other),
    {
        proof {
            lemma_and_subset(self.bits, other.bits);
        }
        FileCaps { bits: self.bits & other.bits }
    }

    /// The rights held by either.
    pub fn union(&self, other: FileCaps) -> (r: FileCaps)
        ensures
            r.bits == self.bits | other.bits,
    {
        FileCaps { bits: self.bits | other.bits }
    }

    /// These rights without those of `other`.
    pub fn difference(&self, other: FileCaps) -> (r: FileCaps)
        ensures
            r.bits == self.bits & !other.bits,
    {
        FileCaps { bits: self.bits & !other.bits }
    }
}

/// Directory-level capabilities held by a descriptor, as a bitmask.
#[derive(Clone, Copy, Debug, PartialEq, Eq, Structural)]
pub struct DirCaps {
    pub bits: u32,
}

impl DirCaps {
    pub open spec fn subset_of(self, other: DirCaps) -> bool {
        bits_subset(self.bits, other.bits)
    }

    pub fn empty() -> (r: DirCaps)
        ensures
            r.bits == 0,
    {
        DirCaps { bits: 0 }
    }

    pub fn all() -> (r: DirCaps)
        ensures
            r.bits == DIR_ALL,
    {
        DirCaps { bits: DIR_ALL }
    }

    /// The rights among `bits` that this library knows of.
    pub fn from_bits(bits: u32) -> (r: DirCaps)
        ensures
            r.bits == bits & DIR_ALL,
    {
        DirCaps { bits: bits & DIR_ALL }
    }

    pub fn contains(&self, other: DirCaps) -> (r: bool)
        ensures
            r == other.subset_of(*self),
    {
        other.bits & self.bits == other.bits
    }

    /// The rights held by both.
    pub fn intersect(&self, other: DirCaps) -> (r: DirCaps)
        ensures
            r.bits == self.bits & other.bits,
            r.subset_of(*self),
            r.subset_of(other),
    {
        proof {
            lemma_and_subset(self.bits, other.bits);
        }
        DirCaps { bits: self.bits & other.bits }
    }

    /// The rights held by either.
    pub fn union(&self, other: DirCaps) -> (r: DirCaps)
        ensures
            r.bits == self.bits | other.bits,
    {
        DirCaps { bits: self.bits | other.bits }
    }

    /// These rights without those of `other`.
    pub fn difference(&self, other: DirCaps) -> (r: DirCaps)
        ensures
            r.bits == self.bits & !other.bits,
    {
        DirCaps { bits: self.bits & !other.bits }
    }
}

/// The file rights that a standard stream receives: all of them, except that
/// an interactive terminal has neither `seek` nor `tell`, so that a guest
/// which probes for a terminal by seeking sees the seek fail.
pub open spec fn spec_stdio_caps(isatty: bool) -> u32 {
    if isatty {
        FILE_ALL & !(FILE_TELL | FILE_SEEK)
    } else {
        FILE_ALL
    }
}

/// The file rights for a standard stream, given whether it is a terminal.
pub fn stdio_caps(isatty: bool) -> (r: FileCaps)
    ensures
        r.bits == spec_stdio_caps(isatty),
        isatty ==> r.bits & FILE_SEEK == 0 && r.bits & FILE_TELL == 0,
        !isatty ==> r.bits == FILE_ALL,
{
    let mut rights = FileCaps::all();
    if isatty {
        rights = rights.difference(FileCaps { bits: FILE_TELL | FILE_SEEK });
        assert(FILE_ALL & !(0x20u32 | 0x4u32) & 0x4u32 == 0) by (bit_vector);
        assert(FILE_ALL & !(0x20u32 | 0x4u32) & 0x20u32 == 0) by (bit_vector);
    }
    rights
}

/// Whatever rights a terminal stream was asked for, once narrowed it has
/// neither `seek` nor `tell`.
pub proof fn lemma_terminal_narrowing(requested: u32)
    ensures
        (requested & spec_stdio_caps(true)) & FILE_SEEK == 0,
        (requested & spec_stdio_caps(true)) & FILE_TELL == 0,
{
    assert((requested & (0x1fffu32 & !(0x20u32 | 0x4u32))) & 0x4u32 == 0) by (bit_vector);
    assert((requested & (0x1fffu32 & !(0x20u32 | 0x4u32))) & 0x20u32 == 0) by (bit_vector);
}

} // verus!
