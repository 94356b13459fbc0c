//! The guest's environment: its arguments, its environment variables, its
//! descriptor table and its exit code.
use vstd::prelude::*;

use crate::entry::{DirEntry, Entry, FileEntry};
use crate::error::{Error, ErrorKind};
use crate::object::WasiFile;
use crate::rights::{spec_stdio_caps, stdio_caps, DirCaps, FileCaps, DIR_ALL, FILE_ALL};
use crate::string_array::{push_outcome, StringArray, StringArrayError};
use crate::table::{is_full, is_lowest_free, Table};

verus! {

/// An environment variable as the guest sees it: `KEY=VALUE`.
pub open spec fn env_pair(var: Seq<char>, value: Seq<char>) -> Seq<char> {
    var + seq!['='] + value
}

/// `new` holds what `old` held, and in addition the entry at `fd`, which
/// `old` did not hold.
pub open spec fn added_at<E>(old: Map<u32, E>, new: Map<u32, E>, fd: u32) -> bool {
    &&& is_lowest_free(old, fd)
    &&& new.contains_key(fd)
    &&& new.remove(fd) == old
}

/// The entry of a standard stream `f`: every file right, except that a
/// terminal has neither `seek` nor `tell`.
pub open spec fn stdio_entry<F, D>(f: F, isatty: bool) -> Entry<F, D> {
    Entry::File(FileEntry { caps: FileCaps { bits: spec_stdio_caps(isatty) }, file: f })
}

/// A table holding exactly the three standard streams at 0, 1 and 2.
pub open spec fn stdio_table<F, D>(
    stdin: F,
    stdin_tty: bool,
    stdout: F,
    stdout_tty: bool,
    stderr: F,
    stderr_tty: bool,
) -> Map<u32, Entry<F, D>> {
    Map::empty().insert(0, stdio_entry(stdin, stdin_tty)).insert(1, stdio_entry(stdout, stdout_tty)).insert(
        2,
        stdio_entry(stderr, stderr_tty),
    )
}

/// A preopened root: a directory with every right, recorded under `path`.
pub open spec fn is_preopen_entry<F, D>(e: Entry<F, D>, dir: D, path: Seq<char>) -> bool {
    match e {
        Entry::Dir(d) => d.caps.bits == DIR_ALL && d.file_caps.bits == FILE_ALL && d.dir == dir
            && (d.preopen_path matches Some(p) && p@ == path),
        Entry::File(_) => false,
    }
}

pub struct WasiEnviron<F, D> {
    pub args: StringArray,
    pub env: StringArray,
    pub table: Table<F, D>,
    pub exit_code: i32,
}

impl<F, D> WasiEnviron<F, D> {
    pub open spec fn wf(&self) -> bool {
        self.args.wf() && self.env.wf()
    }

    pub fn push_arg(&mut self, arg: &str) -> (r: Result<(), StringArrayError>)
        requires
            old(self).wf(),
        ensures
            final(self).wf(),
            r == push_outcome(old(self).args@, arg@),
            r is Ok ==> final(self).args@ == old(self).args@.push(arg@),
            r is Err ==> final(self).args@ == old(self).args@,
            final(self).env == old(self).env,
            final(self).table == old(self).table,
            final(self).exit_code == old(self).exit_code,
    {
        self.args.push(arg.to_owned())
    }

    /// Adds the variable `var` with `value`, stored as `var=value`.
    pub fn push_env(&mut self, var: &str, value: &str) -> (r: Result<(), StringArrayError>)
        requires
            old(self).wf(),
        ensures
            final(self).wf(),
            r == push_outcome(old(self).env@, env_pair(var@, value@)),
            r is Ok ==> final(self).env@ == old(self).env@.push(env_pair(var@, value@)),
            r is Err ==> final(self).env@ == old(self).env@,
            final(self).args == old(self).args,
            final(self).table == old(self).table,
            final(self).exit_code == old(self).exit_code,
    {
        let mut pair = var.to_owned();
        pair.append("=");
        pair.append(value);
        proof {
            reveal_strlit("=");
            assert(pair@ =~= env_pair(var@, value@));
        }
        self.env.push(pair)
    }

    /// Installs `dir` at the lowest free descriptor as a root of the guest's
    /// file system, seen at `path`, with every directory and file right.
    pub fn push_preopened_dir(&mut self, dir: D, path: &str) -> (r: Result<(), Error>)
        ensures
            match r {
                Ok(()) => exists|fd: u32|
                    added_at(old(self).table@, final(self).table@, fd) && is_preopen_entry(
                        #[trigger] final(self).table@[fd],
                        dir,
                        path@,
                    ),
                Err(e) => e.kind == ErrorKind::TableFull && is_full(old(self).table@) && final(self).table@ == old(self).table@,
            },
            final(self).args == old(self).args,
            final(self).env == old(self).env,
            final(self).exit_code == old(self).exit_code,
    {
        let caps = DirCaps::all();
        let file_caps = FileCaps::all();
        let entry = Entry::Dir(DirEntry::new(caps, file_caps, Some(path.to_owned()), dir));
        let fd = self.table().push(entry)?;
        assert(self.table@.remove(fd) =~= old(self).table@);
        assert(is_preopen_entry(self.table@[fd], dir, path@));
        Ok(())
    }

    /// Installs `file` at `fd` with `caps`, dropping whatever stood there.
    pub fn insert_file(&mut self, fd: u32, file: F, caps: FileCaps)
        ensures
            final(self).table@ == old(self).table@.insert(fd, Entry::File(FileEntry { caps, file })),
            final(self).args == old(self).args,
            final(self).env == old(self).env,
            final(self).exit_code == old(self).exit_code,
    {
        self.table().insert_at(fd, Entry::File(FileEntry::new(caps, file)));
    }

    /// Installs `file` with `caps` at the lowest free descriptor.
    pub fn push_file(&mut self, file: F, caps: FileCaps) -> (r: Result<u32, Error>)
        ensures
            match r {
                Ok(fd) => is_lowest_free(old(self).table@, fd) && final(self).table@ == old(
                    self,
                ).table@.insert(fd, Entry::File(FileEntry { caps, file })),
                Err(e) => e.kind == ErrorKind::TableFull && is_full(old(self).table@) && final(self).table@ == old(self).table@,
            },
            final(self).args == old(self).args,
            final(self).env == old(self).env,
            final(self).exit_code == old(self).exit_code,
    {
        self.table().push(Entry::File(FileEntry::new(caps, file)))
    }

    pub fn table(&mut self) -> (r: &mut Table<F, D>)
        ensures
            *r == old(self).table,
            final(self).table == *final(r),
            final(self).args == old(self).args,
            final(self).env == old(self).env,
            final(self).exit_code == old(self).exit_code,
    {
        &mut self.table
    }

    /// Installs `dir` at `fd` with the given rights, recorded under `path`.
    pub fn insert_dir(&mut self, fd: u32, dir: D, caps: DirCaps, file_caps: FileCaps, path: String)
        ensures
            final(self).table@ == old(self).table@.insert(
                fd,
                Entry::Dir(DirEntry { caps, file_caps, preopen_path: Some(path), dir }),
            ),
            final(self).args == old(self).args,
            final(self).env == old(self).env,
            final(self).exit_code == old(self).exit_code,
    {
        self.table().insert_at(fd, Entry::Dir(DirEntry::new(caps, file_caps, Some(path), dir)));
    }

    /// Installs `dir` with the given rights, recorded under `path`, at the
    /// lowest free descriptor.
    pub fn push_dir(&mut self, dir: D, caps: DirCaps, file_caps: FileCaps, path: String) -> (r:
        Result<u32, Error>)
        ensures
            match r {
                Ok(fd) => is_lowest_free(old(self).table@, fd) && final(self).table@ == old(
                    self,
                ).table@.insert(
                    fd,
                    Entry::Dir(DirEntry { caps, file_caps, preopen_path: Some(path), dir }),
                ),
                Err(e) => e.kind == ErrorKind::TableFull && is_full(old(self).table@) && final(self).table@ == old(self).table@,
            },
            final(self).args == old(self).args,
            final(self).env == old(self).env,
            final(self).exit_code == old(self).exit_code,
    {
        self.table().push(Entry::Dir(DirEntry::new(caps, file_caps, Some(path), dir)))
    }

    /// The number of arguments and the bytes they take with a NUL after each,
    /// as the guest's 32-bit signed integers.
    pub fn args_sizes_get(&self) -> (r: (i32, i32))
        requires
            self.wf(),
        ensures
            r.0 == self.args@.len() as i32,
            r.1 == crate::string_array::cumulative(self.args@) as i32,
    {
        (self.args.number_elements() as i32, self.args.cumulative_size() as i32)
    }

    /// The number of environment variables and the bytes they take with a
    /// NUL after each, as the guest's 32-bit signed integers.
    pub fn environ_sizes_get(&self) -> (r: (i32, i32))
        requires
            self.wf(),
        ensures
            r.0 == self.env@.len() as i32,
            r.1 == crate::string_array::cumulative(self.env@) as i32,
    {
        (self.env.number_elements() as i32, self.env.cumulative_size() as i32)
    }

    /// Records the code the guest exits with.
    pub fn proc_exit(&mut self, code: i32)
        ensures
            final(self).exit_code == code,
            final(self).args == old(self).args,
            final(self).env == old(self).env,
            final(self).table == old(self).table,
    {
        self.exit_code = code;
    }
}

impl<F, D> WasiEnviron<F, D> {
    /// An environment with no arguments, no variables, exit code 0, and the
    /// three standard streams at descriptors 0, 1 and 2, each with the rights
    /// its terminal flag gives it.
    pub fn with_stdio(
        stdin: F,
        stdin_tty: bool,
        stdout: F,
        stdout_tty: bool,
        stderr: F,
        stderr_tty: bool,
    ) -> (r: WasiEnviron<F, D>)
        ensures
            r.wf(),
            r.args@.len() == 0,
            r.env@.len() == 0,
            r.exit_code == 0,
            r.table@ == stdio_table::<F, D>(stdin, stdin_tty, stdout, stdout_tty, stderr, stderr_tty),
    {
        let mut environ = WasiEnviron {
            args: StringArray::new(),
            env: StringArray::new(),
            table: Table::new(),
            exit_code: 0,
        };
        environ.set_stdio_flagged(0, stdin, stdin_tty);
        environ.set_stdio_flagged(1, stdout, stdout_tty);
        environ.set_stdio_flagged(2, stderr, stderr_tty);
        environ
    }

    /// Installs the standard stream `f` at `fd`, with every file right unless
    /// `isatty` says it is a terminal, which has neither `seek` nor `tell`.
    pub fn set_stdio_flagged(&mut self, fd: u32, f: F, isatty: bool)
        ensures
            final(self).table@ == old(self).table@.insert(fd, stdio_entry(f, isatty)),
            final(self).args == old(self).args,
            final(self).env == old(self).env,
            final(self).exit_code == old(self).exit_code,
    {
        let rights = stdio_caps(isatty);
        self.insert_file(fd, f, rights);
    }
}

impl<F: WasiFile, D> WasiEnviron<F, D> {
    /// An environment with no arguments, no variables, exit code 0, and the
    /// three standard streams at descriptors 0, 1 and 2, each asked whether
    /// it is a terminal.
    pub fn new(stdin: F, stdout: F, stderr: F) -> (r: WasiEnviron<F, D>)
        ensures
            r.wf(),
            r.args@.len() == 0,
            r.env@.len() == 0,
            r.exit_code == 0,
            exists|t0: bool, t1: bool, t2: bool|
                r.table@ == #[trigger] stdio_table::<F, D>(stdin, t0, stdout, t1, stderr, t2),
    {
        let (t0, t1, t2) = (stdin.isatty(), stdout.isatty(), stderr.isatty());
        Self::with_stdio(stdin, t0, stdout, t1, stderr, t2)
    }

    /// Installs `f` at descriptor 0, with every file right unless it is a
    /// terminal, which has neither `seek` nor `tell`.
    pub fn set_stdin(&mut self, f: F)
        ensures
            exists|t: bool|
                final(self).table@ == old(self).table@.insert(0, #[trigger] stdio_entry(f, t)),
            final(self).args == old(self).args,
            final(self).env == old(self).env,
            final(self).exit_code == old(self).exit_code,
    {
        let isatty = f.isatty();
        self.set_stdio_flagged(0, f, isatty);
    }

    /// Installs `f` at descriptor 1, as `set_stdin` does at 0.
    pub fn set_stdout(&mut self, f: F)
        ensures
            exists|t: bool|
                final(self).table@ == old(self).table@.insert(1, #[trigger] stdio_entry(f, t)),
            final(self).args == old(self).args,
            final(self).env == old(self).env,
            final(self).exit_code == old(self).exit_code,
    {
        let isatty = f.isatty();
        self.set_stdio_flagged(1, f, isatty);
    }

    /// Installs `f` at descriptor 2, as `set_stdin` does at 0.
    pub fn set_stderr(&mut self, f: F)
        ensures
            exists|t: bool|
                final(self).table@ == old(self).table@.insert(2, #[trigger] stdio_entry(f, t)),
            final(self).args == old(self).args,
            final(self).env == old(self).env,
            final(self).exit_code == old(self).exit_code,
    {
        let isatty = f.isatty();
        self.set_stdio_flagged(2, f, isatty);
    }
}

} // verus!
