use wasmedge_wasi::entry::{DirEntry, FileEntry};
use wasmedge_wasi::error::ErrorKind;
use wasmedge_wasi::rights::{
    stdio_caps, DirCaps, FileCaps, DIR_ALL, DIR_OPEN, DIR_READDIR, FILE_ALL, FILE_READ, FILE_SEEK,
    FILE_TELL, FILE_WRITE,
};

#[test]
fn all_and_empty_masks() {
    assert_eq!(FileCaps::all().bits, 0x1fff);
    assert_eq!(DirCaps::all().bits, 0xffff);
    assert_eq!(FileCaps::empty().bits, 0);
    assert_eq!(DirCaps::empty().bits, 0);
    assert_eq!(FileCaps::from_bits(0xffff_ffff).bits, FILE_ALL);
    assert_eq!(DirCaps::from_bits(0xffff_ffff).bits, DIR_ALL);
}

#[test]
fn set_operations() {
    let rw = FileCaps::from_bits(FILE_READ | FILE_WRITE);
    let r = FileCaps::from_bits(FILE_READ);
    assert!(rw.contains(r));
    assert!(!r.contains(rw));
    assert_eq!(rw.intersect(FileCaps::from_bits(FILE_WRITE | FILE_SEEK)).bits, FILE_WRITE);
    assert_eq!(r.union(FileCaps::from_bits(FILE_SEEK)).bits, FILE_READ | FILE_SEEK);
    assert_eq!(rw.difference(r).bits, FILE_WRITE);
    let d = DirCaps::from_bits(DIR_OPEN | DIR_READDIR);
    assert_eq!(d.intersect(DirCaps::from_bits(DIR_OPEN)).bits, DIR_OPEN);
    assert_eq!(d.difference(DirCaps::from_bits(DIR_OPEN)).bits, DIR_READDIR);
    assert_eq!(DirCaps::empty().union(d).bits, d.bits);
    assert!(d.contains(DirCaps::from_bits(DIR_READDIR)));
}

#[test]
fn terminal_stdio_loses_seek_and_tell() {
    let tty = stdio_caps(true);
    assert_eq!(tty.bits & FILE_SEEK, 0);
    assert_eq!(tty.bits & FILE_TELL, 0);
    assert_eq!(tty.bits, FILE_ALL & !(FILE_SEEK | FILE_TELL));
    // whatever is requested, the narrowed set has neither right
    let requested = FileCaps::all();
    assert_eq!(requested.intersect(tty).bits & (FILE_SEEK | FILE_TELL), 0);
    assert_eq!(stdio_caps(false).bits, FILE_ALL);
}

#[test]
fn child_rights_narrow_along_a_chain() {
    let parent = DirEntry::new(
        DirCaps::from_bits(DIR_OPEN | DIR_READDIR),
        FileCaps::from_bits(FILE_READ | FILE_WRITE | FILE_SEEK),
        None,
        0u8,
    );
    let child = parent.child_dir(
        DirCaps::all(),
        FileCaps::from_bits(FILE_READ | FILE_SEEK | FILE_TELL),
        1u8,
    );
    assert_eq!(child.caps.bits, DIR_OPEN | DIR_READDIR);
    assert_eq!(child.file_caps.bits, FILE_READ | FILE_SEEK);
    assert!(child.preopen_path.is_none());
    let grandchild: FileEntry<u8> = child.child_file(FileCaps::all(), 2u8);
    assert_eq!(grandchild.caps.bits, FILE_READ | FILE_SEEK);
    assert!(parent.file_caps.contains(child.file_caps));
    assert!(child.file_caps.contains(grandchild.caps));
    assert_eq!(parent.child_dir_caps(DirCaps::from_bits(DIR_OPEN)).bits, DIR_OPEN);
    assert_eq!(parent.child_file_caps(FileCaps::from_bits(FILE_TELL)).bits, 0);
}

#[test]
fn directory_rights_checks() {
    let d = DirEntry::new(DirCaps::from_bits(DIR_OPEN), FileCaps::from_bits(FILE_READ), None, 0u8);
    assert!(d.capable_of_dir(DirCaps::from_bits(DIR_OPEN)).is_ok());
    assert_eq!(d.capable_of_dir(DirCaps::from_bits(DIR_READDIR)).err().unwrap().kind, ErrorKind::Perm);
    assert!(d.capable_of_file(FileCaps::from_bits(FILE_READ)).is_ok());
    assert_eq!(d.capable_of_file(FileCaps::from_bits(FILE_WRITE)).err().unwrap().kind, ErrorKind::Perm);
}
