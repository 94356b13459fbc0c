use wasmedge_wasi::entry::{DirEntry, Entry, EntryKind, FileEntry};
use wasmedge_wasi::error::ErrorKind;
use wasmedge_wasi::rights::{DirCaps, FileCaps, FILE_READ};
use wasmedge_wasi::table::Table;

fn file(id: u8) -> Entry<u8, u8> {
    Entry::File(FileEntry::new(FileCaps::all(), id))
}

fn dir(id: u8, preopen: Option<&str>) -> Entry<u8, u8> {
    Entry::Dir(DirEntry::new(
        DirCaps::all(),
        FileCaps::all(),
        preopen.map(|p| p.to_string()),
        id,
    ))
}

fn file_id(t: &Table<u8, u8>, fd: u32) -> u8 {
    match t.get(fd) {
        Ok(Entry::File(f)) => f.file,
        _ => panic!("no file at {}", fd),
    }
}

#[test]
fn push_takes_lowest_free_number() {
    let mut t: Table<u8, u8> = Table::new();
    assert_eq!(t.push(file(10)).unwrap(), 0);
    assert_eq!(t.push(file(11)).unwrap(), 1);
    t.insert_at(3, file(13));
    assert_eq!(t.push(file(12)).unwrap(), 2);
    assert_eq!(t.push(file(14)).unwrap(), 4);
    assert_eq!(file_id(&t, 3), 13);
    assert_eq!(file_id(&t, 2), 12);
}

#[test]
fn insert_at_replaces_existing_entry() {
    let mut t: Table<u8, u8> = Table::new();
    t.insert_at(1, file(1));
    t.insert_at(1, file(2));
    assert_eq!(file_id(&t, 1), 2);
    assert!(!t.contains_key(0));
}

#[test]
fn get_on_missing_descriptor_fails() {
    let t: Table<u8, u8> = Table::new();
    let e = t.get(7).err().unwrap();
    assert_eq!(e.kind, ErrorKind::NoSuchDescriptor);
    assert_eq!(e.context.len(), 1);
}

#[test]
fn distinct_descriptors_hold_distinct_entries() {
    let mut t: Table<u8, u8> = Table::new();
    let a = t.push(file(1)).unwrap();
    let b = t.push(file(2)).unwrap();
    assert_ne!(a, b);
    assert_eq!(file_id(&t, a), 1);
    assert_eq!(file_id(&t, b), 2);
    t.remove(a).unwrap();
    assert_eq!(file_id(&t, b), 2);
}

#[test]
fn reuse_after_removal() {
    let mut t: Table<u8, u8> = Table::new();
    for i in 0..4u8 {
        t.push(file(i)).unwrap();
    }
    let removed = t.remove(1).unwrap();
    assert!(matches!(removed, Entry::File(ref f) if f.file == 1));
    assert_eq!(t.get(1).err().unwrap().kind, ErrorKind::NoSuchDescriptor);
    assert_eq!(t.push(file(9)).unwrap(), 1);
    assert_eq!(file_id(&t, 1), 9);
}

#[test]
fn remove_missing_descriptor_fails() {
    let mut t: Table<u8, u8> = Table::new();
    assert_eq!(t.remove(0).err().unwrap().kind, ErrorKind::NoSuchDescriptor);
}

#[test]
fn get_as_rejects_other_kind() {
    let mut t: Table<u8, u8> = Table::new();
    let d = t.push(dir(1, None)).unwrap();
    let f = t.push(file(2)).unwrap();
    assert_eq!(t.get_as(d, EntryKind::File).err().unwrap().kind, ErrorKind::WrongKind);
    assert_eq!(t.get_as(f, EntryKind::Dir).err().unwrap().kind, ErrorKind::WrongKind);
    assert!(t.get_as(d, EntryKind::Dir).is_ok());
    assert!(t.get_as(f, EntryKind::File).is_ok());
    assert_eq!(t.get_as(5, EntryKind::File).err().unwrap().kind, ErrorKind::NoSuchDescriptor);
}

#[test]
fn is_preopen_only_for_recorded_directories() {
    let mut t: Table<u8, u8> = Table::new();
    let p = t.push(dir(1, Some("/sandbox"))).unwrap();
    let d = t.push(dir(2, None)).unwrap();
    let f = t.push(file(3)).unwrap();
    assert!(t.is_preopen(p));
    assert!(!t.is_preopen(d));
    assert!(!t.is_preopen(f));
    assert!(!t.is_preopen(40));
}

#[test]
fn entry_kind_reports_tag() {
    assert_eq!(file(1).kind(), EntryKind::File);
    assert_eq!(dir(1, None).kind(), EntryKind::Dir);
}

#[test]
fn file_entry_checks_rights() {
    let e = FileEntry::new(FileCaps::from_bits(FILE_READ), 0u8);
    assert!(e.capable_of(FileCaps::from_bits(FILE_READ)).is_ok());
    assert_eq!(e.capable_of(FileCaps::all()).err().unwrap().kind, ErrorKind::Perm);
}

#[test]
fn get_mut_changes_entry_in_place() {
    let mut t: Table<u8, u8> = Table::new();
    t.insert_at(2, file(1));
    match t.get_mut(2) {
        Ok(Entry::File(f)) => f.file = 7,
        _ => panic!("expected a file"),
    }
    assert_eq!(file_id(&t, 2), 7);
    assert_eq!(t.get_mut(3).err().unwrap().kind, ErrorKind::NoSuchDescriptor);
    assert!(!t.contains_key(3));
}
