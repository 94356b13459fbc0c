//! File types, open and descriptor flags, and the decision of how a file is to
//! be opened on the host.
use vstd::prelude::*;

use crate::error::{Error, ErrorKind};

verus! {

/// What kind of object a name or a descriptor refers to.
#[derive(Clone, Copy, Debug, PartialEq, Eq, Structural)]
pub enum FileType {
    Unknown,
    BlockDevice,
    CharacterDevice,
    Directory,
    RegularFile,
    SocketDgram,
    SocketStream,
    SymbolicLink,
    Pipe,
}

/// Create the file if it does not exist.
pub const OFLAGS_CREATE: u32 = 0x1;

/// The path must name a directory.
pub const OFLAGS_DIRECTORY: u32 = 0x2;

/// Fail if the file already exists.
pub const OFLAGS_EXCLUSIVE: u32 = 0x4;

/// Truncate the file to length zero.
pub const OFLAGS_TRUNCATE: u32 = 0x8;

/// Writes go to the end of the file.
pub const FDFLAGS_APPEND: u32 = 0x1;

/// Writes wait for the data to reach storage.
pub const FDFLAGS_DSYNC: u32 = 0x2;

/// Operations do not block.
pub const FDFLAGS_NONBLOCK: u32 = 0x4;

/// Reads wait for pending writes to reach storage.
pub const FDFLAGS_RSYNC: u32 = 0x8;

/// Writes wait for data and metadata to reach storage.
pub const FDFLAGS_SYNC: u32 = 0x10;

/// Flags that say how a path is opened.
#[derive(Clone, Copy, Debug, PartialEq, Eq, Structural)]
pub struct OFlags {
    pub bits: u32,
}

/// Flags that say how an open descriptor behaves.
#[derive(Clone, Copy, Debug, PartialEq, Eq, Structural)]
pub struct FdFlags {
    pub bits: u32,
}

/// How the host is to open a file: one switch for each of its open options.
#[derive(Clone, Copy, Debug, PartialEq, Eq, Structural)]
pub struct OpenPlan {
    pub read: bool,
    pub write: bool,
    pub create: bool,
    pub create_new: bool,
    pub truncate: bool,
    pub append: bool,
    pub follow_symlinks: bool,
    pub nonblocking: bool,
}

pub open spec fn flag_set(bits: u32, flag: u32) -> bool {
    bits & flag == flag
}

/// The synchronous-write flags, which no host open option can honour.
pub open spec fn wants_sync(fdflags: u32) -> bool {
    fdflags & (FDFLAGS_DSYNC | FDFLAGS_SYNC | FDFLAGS_RSYNC) != 0
}

/// The open options for a request: creation when asked for (exclusive when
/// both create and exclusive are given), which also needs write access;
/// write access when asked for, and read access when asked for or when write
/// access was not, so that the host lets the file be opened at all.
pub open spec fn spec_open_plan(
    symlink_follow: bool,
    oflags: u32,
    read: bool,
    write: bool,
    fdflags: u32,
) -> OpenPlan {
    let create = flag_set(oflags, OFLAGS_CREATE);
    let exclusive = create && flag_set(oflags, OFLAGS_EXCLUSIVE);
    OpenPlan {
        read: read || !write,
        write: write || create,
        create: create && !exclusive,
        create_new: exclusive,
        truncate: flag_set(oflags, OFLAGS_TRUNCATE),
        append: flag_set(fdflags, FDFLAGS_APPEND),
        follow_symlinks: symlink_follow,
        nonblocking: flag_set(fdflags, FDFLAGS_NONBLOCK),
    }
}

/// Decides how to open a file under a directory; refuses the synchronous
/// write flags, which the host cannot honour on open.
pub fn open_plan(symlink_follow: bool, oflags: OFlags, read: bool, write: bool, fdflags: FdFlags) -> (r:
    Result<OpenPlan, Error>)
    ensures
        r is Ok <==> !wants_sync(fdflags.bits),
        r matches Ok(p) ==> p == spec_open_plan(symlink_follow, oflags.bits, read, write, fdflags.bits),
        r matches Err(e) ==> e.kind == ErrorKind::NotSupported,
{
    let mut plan = OpenPlan {
        read: false,
        write: false,
        create: false,
        create_new: false,
        truncate: false,
        append: false,
        follow_symlinks: symlink_follow,
        nonblocking: false,
    };
    let create_exclusive = OFLAGS_CREATE | OFLAGS_EXCLUSIVE;
    if oflags.bits & create_exclusive == create_exclusive {
        plan.create_new = true;
        plan.write = true;
    } else if oflags.bits & OFLAGS_CREATE == OFLAGS_CREATE {
        plan.create = true;
        plan.write = true;
    }
    if oflags.bits & OFLAGS_TRUNCATE == OFLAGS_TRUNCATE {
        plan.truncate = true;
    }
    if read {
        plan.read = true;
    }
    if write {
        plan.write = true;
    } else {
        plan.read = true;
    }
    if fdflags.bits & FDFLAGS_APPEND == FDFLAGS_APPEND {
        plan.append = true;
    }
    if fdflags.bits & (FDFLAGS_DSYNC | FDFLAGS_SYNC | FDFLAGS_RSYNC) != 0 {
        return Err(Error::new(ErrorKind::NotSupported).context("SYNC family of FdFlags"));
    }
    if fdflags.bits & FDFLAGS_NONBLOCK == FDFLAGS_NONBLOCK {
        plan.nonblocking = true;
    }
    proof {
        let o = oflags.bits;
        assert(o & (0x1u32 | 0x4u32) == (0x1u32 | 0x4u32) <==> (o & 0x1u32 == 0x1u32 && o & 0x4u32
            == 0x4u32)) by (bit_vector);
    }
    Ok(plan)
}

/// The guest's type for a host object, from what the host says of it; the
/// first of directory, symbolic link, regular file, block device, character
/// device and pipe that holds, else unknown.
pub open spec fn spec_filetype_from_flags(
    is_dir: bool,
    is_symlink: bool,
    is_file: bool,
    is_block_device: bool,
    is_char_device: bool,
    is_fifo: bool,
) -> FileType {
    if is_dir {
        FileType::Directory
    } else if is_symlink {
        FileType::SymbolicLink
    } else if is_file {
        FileType::RegularFile
    } else if is_block_device {
        FileType::BlockDevice
    } else if is_char_device {
        FileType::CharacterDevice
    } else if is_fifo {
        FileType::Pipe
    } else {
        FileType::Unknown
    }
}

pub fn filetype_from_flags(
    is_dir: bool,
    is_symlink: bool,
    is_file: bool,
    is_block_device: bool,
    is_char_device: bool,
    is_fifo: bool,
) -> (r: FileType)
    ensures
        r == spec_filetype_from_flags(is_dir, is_symlink, is_file, is_block_device, is_char_device, is_fifo),
{
    if is_dir {
        FileType::Directory
    } else if is_symlink {
        FileType::SymbolicLink
    } else if is_file {
        FileType::RegularFile
    } else if is_block_device {
        FileType::BlockDevice
    } else if is_char_device {
        FileType::CharacterDevice
    } else if is_fifo {
        FileType::Pipe
    } else {
        FileType::Unknown
    }
}

/// The type that a standard stream reports: a character device when it is a
/// terminal, otherwise unknown.
pub fn stream_filetype(isatty: bool) -> (r: FileType)
    ensures
        r == (if isatty {
            FileType::CharacterDevice
        } else {
            FileType::Unknown
        }),
{
    if isatty {
        FileType::CharacterDevice
    } else {
        FileType::Unknown
    }
}

} // verus!
