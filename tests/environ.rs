use wasmedge_wasi::builder::WasiCtxBuilder;
use wasmedge_wasi::entry::{Entry, EntryKind};
use wasmedge_wasi::environ::WasiEnviron;
use wasmedge_wasi::error::ErrorKind;
use wasmedge_wasi::object::WasiFile;
use wasmedge_wasi::rights::{
    DirCaps, FileCaps, DIR_ALL, FILE_ALL, FILE_FDSTAT_SET_FLAGS, FILE_FILESTAT_GET,
    FILE_POLL_READWRITE, FILE_READ, FILE_SEEK, FILE_TELL, FILE_WRITE,
};
use wasmedge_wasi::string_array::{StringArray, StringArrayError};

#[derive(Debug, PartialEq)]
struct MemFile {
    tty: bool,
    data: Vec<u8>,
}

impl WasiFile for MemFile {
    fn isatty(&self) -> bool {
        self.tty
    }
}

fn mem(tty: bool) -> MemFile {
    MemFile { tty, data: Vec::new() }
}

fn caps_at(env: &WasiEnviron<MemFile, u8>, fd: u32) -> u32 {
    match env.table.get(fd) {
        Ok(Entry::File(f)) => f.caps.bits,
        _ => panic!("no file at {}", fd),
    }
}

#[test]
fn new_environment_has_three_streams() {
    let env: WasiEnviron<MemFile, u8> = WasiEnviron::new(mem(false), mem(true), mem(false));
    assert_eq!(caps_at(&env, 0), FILE_ALL);
    assert_eq!(caps_at(&env, 1), FILE_ALL & !(FILE_SEEK | FILE_TELL));
    assert_eq!(caps_at(&env, 2), FILE_ALL);
    assert!(!env.table.contains_key(3));
    assert_eq!(env.exit_code, 0);
    assert_eq!(env.args_sizes_get(), (0, 0));
    assert_eq!(env.environ_sizes_get(), (0, 0));
}

#[test]
fn terminal_stdout_never_seeks() {
    let mut env: WasiEnviron<MemFile, u8> = WasiEnviron::new(mem(false), mem(false), mem(false));
    env.set_stdout(mem(true));
    env.set_stderr(mem(true));
    env.set_stdin(mem(true));
    for fd in 0..3 {
        assert_eq!(caps_at(&env, fd) & (FILE_SEEK | FILE_TELL), 0);
    }
}

#[test]
fn args_and_env_sizes() {
    let mut env: WasiEnviron<MemFile, u8> = WasiEnviron::new(mem(false), mem(false), mem(false));
    env.push_arg("prog").unwrap();
    env.push_arg("é").unwrap();
    env.push_env("KEY", "VALUE").unwrap();
    assert_eq!(env.args_sizes_get(), (2, 5 + 3));
    assert_eq!(env.environ_sizes_get(), (1, 10));
    assert_eq!(env.env.elements(), &vec!["KEY=VALUE".to_string()]);
    assert_eq!(env.args.elements(), &vec!["prog".to_string(), "é".to_string()]);
}

#[test]
fn string_array_counts() {
    let mut a = StringArray::new();
    assert_eq!(a.number_elements(), 0);
    assert_eq!(a.push("ab".to_string()), Ok(()));
    assert_eq!(a.push(String::new()), Ok(()));
    assert_eq!(a.number_elements(), 2);
    assert_eq!(a.cumulative_size(), 4);
}

#[test]
fn proc_exit_records_code() {
    let mut env: WasiEnviron<MemFile, u8> = WasiEnviron::new(mem(false), mem(false), mem(false));
    env.proc_exit(42);
    assert_eq!(env.exit_code, 42);
}

#[test]
fn preopened_dir_has_all_rights_and_path() {
    let mut env: WasiEnviron<MemFile, u8> = WasiEnviron::new(mem(false), mem(false), mem(false));
    env.push_preopened_dir(9, "/sandbox").unwrap();
    assert!(env.table.is_preopen(3));
    match env.table.get_as(3, EntryKind::Dir) {
        Ok(Entry::Dir(d)) => {
            assert_eq!(d.caps.bits, DIR_ALL);
            assert_eq!(d.file_caps.bits, FILE_ALL);
            assert_eq!(d.preopen_path.as_deref(), Some("/sandbox"));
            assert_eq!(d.dir, 9);
        }
        _ => panic!("expected a directory"),
    }
}

#[test]
fn insert_and_push_entries() {
    let mut env: WasiEnviron<MemFile, u8> = WasiEnviron::new(mem(false), mem(false), mem(false));
    let fd = env.push_file(mem(false), FileCaps::from_bits(FILE_READ)).unwrap();
    assert_eq!(fd, 3);
    env.insert_file(10, mem(false), FileCaps::from_bits(FILE_WRITE));
    assert_eq!(caps_at(&env, 10), FILE_WRITE);
    let d = env.push_dir(5, DirCaps::all(), FileCaps::empty(), "/a".to_string()).unwrap();
    assert_eq!(d, 4);
    env.insert_dir(20, 6, DirCaps::empty(), FileCaps::all(), "/b".to_string());
    assert!(env.table.is_preopen(20));
    assert_eq!(env.table().remove(20).unwrap().kind(), EntryKind::Dir);
    assert!(!env.table.contains_key(20));
}

#[test]
fn builder_assembles_environment() {
    let b: WasiCtxBuilder<MemFile, u8> = WasiCtxBuilder::new(mem(false), mem(false), mem(false));
    let env = b
        .arg("prog")
        .unwrap()
        .args(&["x".to_string(), "yz".to_string()])
        .unwrap()
        .env("A", "1")
        .unwrap()
        .envs(&[("B".to_string(), "22".to_string())])
        .unwrap()
        .stdout(mem(true))
        .stdin(mem(false))
        .stderr(mem(false))
        .preopened_dir(1, "/")
        .unwrap()
        .preopened_socket(7, mem(false))
        .unwrap()
        .build();
    assert_eq!(
        env.args.elements(),
        &vec!["prog".to_string(), "x".to_string(), "yz".to_string()]
    );
    assert_eq!(env.env.elements(), &vec!["A=1".to_string(), "B=22".to_string()]);
    assert_eq!(env.args_sizes_get(), (3, 10));
    assert_eq!(caps_at(&env, 1), FILE_ALL & !(FILE_SEEK | FILE_TELL));
    assert!(env.table.is_preopen(3));
    assert_eq!(
        caps_at(&env, 7),
        FILE_FDSTAT_SET_FLAGS | FILE_FILESTAT_GET | FILE_READ | FILE_POLL_READWRITE
    );
}

#[test]
fn string_array_error_variants_differ() {
    assert_ne!(StringArrayError::NumberElements, StringArrayError::ElementSize);
    assert_ne!(StringArrayError::ElementSize, StringArrayError::CumulativeSize);
}

#[test]
fn end_to_end_open_write_close() {
    let mut env: WasiEnviron<MemFile, u8> =
        WasiCtxBuilder::new(mem(false), mem(false), mem(false)).preopened_dir(0, "/").unwrap().build();
    let dir_fd = 3;
    let requested = FileCaps::from_bits(FILE_WRITE);
    let (granted, file_caps) = match env.table.get_as(dir_fd, EntryKind::Dir) {
        Ok(Entry::Dir(d)) => {
            d.capable_of_file(requested).unwrap();
            let child = d.child_file(requested, mem(false));
            (child.caps, d.file_caps)
        }
        _ => panic!("expected the preopened directory"),
    };
    assert_eq!(granted.bits, FILE_WRITE & file_caps.bits);
    assert_eq!(granted.bits, FILE_WRITE);
    let fd = env.push_file(MemFile { tty: false, data: b"hello".to_vec() }, granted).unwrap();
    match env.table.get_as(fd, EntryKind::File) {
        Ok(Entry::File(f)) => {
            assert!(f.capable_of(FileCaps::from_bits(FILE_WRITE)).is_ok());
            assert_eq!(f.capable_of(FileCaps::from_bits(FILE_READ)).err().unwrap().kind, ErrorKind::Perm);
            assert_eq!(f.file.data, b"hello".to_vec());
        }
        _ => panic!("expected the opened file"),
    }
    env.table().remove(fd).unwrap();
    assert_eq!(env.table.get(fd).err().unwrap().kind, ErrorKind::NoSuchDescriptor);
}

fn file_at(env: &WasiEnviron<MemFile, u8>, fd: u32) -> &MemFile {
    match env.table.get(fd) {
        Ok(Entry::File(f)) => &f.file,
        _ => panic!("no file at {}", fd),
    }
}

fn tagged(data: &[u8], tty: bool) -> MemFile {
    MemFile { tty, data: data.to_vec() }
}

#[test]
fn new_puts_each_stream_in_its_slot() {
    let env: WasiEnviron<MemFile, u8> =
        WasiEnviron::new(tagged(b"in", false), tagged(b"out", false), tagged(b"err", true));
    assert_eq!(file_at(&env, 0).data, b"in".to_vec());
    assert_eq!(file_at(&env, 1).data, b"out".to_vec());
    assert_eq!(file_at(&env, 2).data, b"err".to_vec());
    assert_eq!(caps_at(&env, 0), FILE_ALL);
    assert_eq!(caps_at(&env, 1), FILE_ALL);
    assert_eq!(caps_at(&env, 2), FILE_ALL & !(FILE_SEEK | FILE_TELL));
}

#[test]
fn with_stdio_follows_the_terminal_flags() {
    let env: WasiEnviron<MemFile, u8> = WasiEnviron::with_stdio(
        tagged(b"in", false),
        true,
        tagged(b"out", false),
        false,
        tagged(b"err", false),
        true,
    );
    assert_eq!(caps_at(&env, 0), FILE_ALL & !(FILE_SEEK | FILE_TELL));
    assert_eq!(caps_at(&env, 1), FILE_ALL);
    assert_eq!(caps_at(&env, 2), FILE_ALL & !(FILE_SEEK | FILE_TELL));
    assert_eq!(file_at(&env, 1).data, b"out".to_vec());
    assert!(!env.table.contains_key(3));
}

#[test]
fn set_stdio_flagged_installs_the_stream() {
    let mut env: WasiEnviron<MemFile, u8> = WasiEnviron::new(mem(false), mem(false), mem(false));
    env.set_stdio_flagged(5, tagged(b"x", false), true);
    assert_eq!(caps_at(&env, 5), FILE_ALL & !(FILE_SEEK | FILE_TELL));
    assert_eq!(file_at(&env, 5).data, b"x".to_vec());
    env.set_stdin(tagged(b"new", false));
    assert_eq!(file_at(&env, 0).data, b"new".to_vec());
    assert_eq!(caps_at(&env, 0), FILE_ALL);
}

#[test]
fn builder_streams_land_in_their_slots() {
    let env = WasiCtxBuilder::<MemFile, u8>::with_stdio(
        tagged(b"a", false),
        false,
        tagged(b"b", false),
        true,
        tagged(b"c", false),
        false,
    )
    .stderr(tagged(b"d", true))
    .build();
    assert_eq!(file_at(&env, 0).data, b"a".to_vec());
    assert_eq!(caps_at(&env, 1), FILE_ALL & !(FILE_SEEK | FILE_TELL));
    assert_eq!(file_at(&env, 2).data, b"d".to_vec());
    assert_eq!(caps_at(&env, 2), FILE_ALL & !(FILE_SEEK | FILE_TELL));
}
