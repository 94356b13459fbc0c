//! Step-by-step assembly of an environment before the guest starts.
use vstd::prelude::*;

use crate::entry::{Entry, FileEntry};
use crate::environ::{
    added_at, env_pair, is_preopen_entry, stdio_entry, stdio_table, WasiEnviron,
};
use crate::error::{Error, ErrorKind};
use crate::table::is_full;
use crate::object::WasiFile;
use crate::rights::{
    FileCaps, FILE_FDSTAT_SET_FLAGS, FILE_FILESTAT_GET, FILE_POLL_READWRITE, FILE_READ,
};
use crate::string_array::{push_outcome, StringArrayError};

verus! {

/// The outcome of pushing each of `items` in turn onto `v`: the grown list,
/// or the first refusal.
pub open spec fn push_all(v: Seq<Seq<char>>, items: Seq<Seq<char>>) -> Result<
    Seq<Seq<char>>,
    StringArrayError,
>
    decreases items.len(),
{
    if items.len() == 0 {
        Ok(v)
    } else {
        match push_all(v, items.drop_last()) {
            Ok(w) => match push_outcome(w, items.last()) {
                Ok(()) => Ok(w.push(items.last())),
                Err(e) => Err(e),
            },
            Err(e) => Err(e),
        }
    }
}

/// The rights of a preopened socket: set descriptor flags, read its
/// attributes, read, and poll.
pub open spec fn socket_caps() -> u32 {
    FILE_FDSTAT_SET_FLAGS | FILE_FILESTAT_GET | FILE_READ | FILE_POLL_READWRITE
}

pub struct WasiCtxBuilder<F, D>(WasiEnviron<F, D>);

impl<F, D> WasiCtxBuilder<F, D> {
    /// The environment being assembled.
    pub closed spec fn environ(&self) -> WasiEnviron<F, D> {
        self.0
    }

    pub open spec fn wf(&self) -> bool {
        self.environ().wf()
    }

    /// Adds the variable `var` with `value`.
    pub fn env(self, var: &str, value: &str) -> (r: Result<Self, StringArrayError>)
        requires
            self.wf(),
        ensures
            match r {
                Ok(b) => push_outcome(self.environ().env@, env_pair(var@, value@)) is Ok && b.wf()
                    && b.environ().env@ == self.environ().env@.push(env_pair(var@, value@))
                    && b.environ().args == self.environ().args && b.environ().table
                    == self.environ().table,
                Err(e) => push_outcome(self.environ().env@, env_pair(var@, value@)) == Err::<
                    (),
                    StringArrayError,
                >(e),
            },
    {
        let mut b = self;
        b.0.push_env(var, value)?;
        Ok(b)
    }

    /// Adds each `(key, value)` pair of `env` in order.
    pub fn envs(self, env: &[(String, String)]) -> (r: Result<Self, StringArrayError>)
        requires
            self.wf(),
        ensures
            ({
                let pairs = env@.map_values(|p: (String, String)| env_pair(p.0@, p.1@));
                match r {
                    Ok(b) => push_all(self.environ().env@, pairs) == Ok::<
                        Seq<Seq<char>>,
                        StringArrayError,
                    >(b.environ().env@) && b.wf() && b.environ().args == self.environ().args
                        && b.environ().table == self.environ().table,
                    Err(e) => push_all(self.environ().env@, pairs) == Err::<
                        Seq<Seq<char>>,
                        StringArrayError,
                    >(e),
                }
            }),
    {
        let ghost pairs = env@.map_values(|p: (String, String)| env_pair(p.0@, p.1@));
        let ghost start = self.environ().env@;
        let mut b = self;
        let mut i: usize = 0;
        while i < env.len()
            invariant
                i <= env@.len(),
                b.wf(),
                start == self.environ().env@,
                pairs == env@.map_values(|p: (String, String)| env_pair(p.0@, p.1@)),
                push_all(start, pairs.subrange(0, i as int)) == Ok::<
                    Seq<Seq<char>>,
                    StringArrayError,
                >(b.environ().env@),
                b.environ().args == self.environ().args,
                b.environ().table == self.environ().table,
            decreases env@.len() - i,
        {
            let (k, v) = &env[i];
            assert(pairs.subrange(0, i + 1).drop_last() =~= pairs.subrange(0, i as int));
            assert(pairs.subrange(0, i + 1).last() == env_pair(k@, v@));
            match b.0.push_env(k.as_str(), v.as_str()) {
                Ok(()) => {},
                Err(e) => {
                    proof {
                        lemma_push_all_stops(start, pairs, i as int + 1);
                        lemma_push_all_err_persists(start, pairs, i as int + 1, pairs.len() as int);
                        assert(pairs.subrange(0, pairs.len() as int) =~= pairs);
                    }
                    return Err(e);
                },
            }
            i = i + 1;
        }
        assert(pairs.subrange(0, i as int) =~= pairs);
        Ok(b)
    }

    /// Adds the argument `arg`.
    pub fn arg(self, arg: &str) -> (r: Result<Self, StringArrayError>)
        requires
            self.wf(),
        ensures
            match r {
                Ok(b) => push_outcome(self.environ().args@, arg@) is Ok && b.wf()
                    && b.environ().args@ == self.environ().args@.push(arg@) && b.environ().env
                    == self.environ().env && b.environ().table == self.environ().table,
                Err(e) => push_outcome(self.environ().args@, arg@) == Err::<(), StringArrayError>(
                    e,
                ),
            },
    {
        let mut b = self;
        b.0.push_arg(arg)?;
        Ok(b)
    }

    /// Adds each of `arg` in order.
    pub fn args(self, arg: &[String]) -> (r: Result<Self, StringArrayError>)
        requires
            self.wf(),
        ensures
            ({
                let items = arg@.map_values(|s: String| s@);
                match r {
                    Ok(b) => push_all(self.environ().args@, items) == Ok::<
                        Seq<Seq<char>>,
                        StringArrayError,
                    >(b.environ().args@) && b.wf() && b.environ().env == self.environ().env
                        && b.environ().table == self.environ().table,
                    Err(e) => push_all(self.environ().args@, items) == Err::<
                        Seq<Seq<char>>,
                        StringArrayError,
                    >(e),
                }
            }),
    {
        let ghost items = arg@.map_values(|s: String| s@);
        let ghost start = self.environ().args@;
        let mut b = self;
        let mut i: usize = 0;
        while i < arg.len()
            invariant
                i <= arg@.len(),
                b.wf(),
                start == self.environ().args@,
                items == arg@.map_values(|s: String| s@),
                push_all(start, items.subrange(0, i as int)) == Ok::<
                    Seq<Seq<char>>,
                    StringArrayError,
                >(b.environ().args@),
                b.environ().env == self.environ().env,
                b.environ().table == self.environ().table,
            decreases arg@.len() - i,
        {
            let a = &arg[i];
            assert(items.subrange(0, i + 1).drop_last() =~= items.subrange(0, i as int));
            assert(items.subrange(0, i + 1).last() == a@);
            match b.0.push_arg(a.as_str()) {
                Ok(()) => {},
                Err(e) => {
                    proof {
                        lemma_push_all_stops(start, items, i as int + 1);
                        lemma_push_all_err_persists(start, items, i as int + 1, items.len() as int);
                        assert(items.subrange(0, items.len() as int) =~= items);
                    }
                    return Err(e);
                },
            }
            i = i + 1;
        }
        assert(items.subrange(0, i as int) =~= items);
        Ok(b)
    }

    /// Makes `dir` a root of the guest's file system, seen at `guest_path`.
    pub fn preopened_dir(self, dir: D, guest_path: &str) -> (r: Result<Self, Error>)
        requires
            self.wf(),
        ensures
            match r {
                Ok(b) => b.wf() && (exists|fd: u32|
                    added_at(self.environ().table@, b.environ().table@, fd) && is_preopen_entry(
                        #[trigger] b.environ().table@[fd],
                        dir,
                        guest_path@,
                    )) && b.environ().args == self.environ().args && b.environ().env
                    == self.environ().env,
                Err(e) => e.kind == ErrorKind::TableFull && is_full(self.environ().table@),
            },
    {
        let mut b = self;
        b.0.push_preopened_dir(dir, guest_path)?;
        Ok(b)
    }

    /// Installs `socket` at `fd` with the rights of a socket: set descriptor
    /// flags, read its attributes, read, and poll.
    pub fn preopened_socket(self, fd: u32, socket: F) -> (r: Result<Self, Error>)
        requires
            self.wf(),
        ensures
            match r {
                Ok(b) => b.wf() && b.environ().table@ == self.environ().table@.insert(
                    fd,
                    Entry::File(FileEntry { caps: FileCaps { bits: socket_caps() }, file: socket }),
                ) && b.environ().args == self.environ().args && b.environ().env
                    == self.environ().env,
                Err(_) => false,
            },
    {
        let caps = FileCaps {
            bits: FILE_FDSTAT_SET_FLAGS | FILE_FILESTAT_GET | FILE_READ | FILE_POLL_READWRITE,
        };
        let mut b = self;
        b.0.insert_file(fd, socket, caps);
        Ok(b)
    }

    /// The assembled environment.
    pub fn build(self) -> (r: WasiEnviron<F, D>)
        ensures
            r == self.environ(),
    {
        self.0
    }
}

impl<F: WasiFile, D> WasiCtxBuilder<F, D> {
    /// A builder whose environment has the three standard streams, each
    /// asked whether it is a terminal, and nothing else.
    pub fn new(stdin: F, stdout: F, stderr: F) -> (r: Self)
        ensures
            r.wf(),
            r.environ().args@.len() == 0,
            r.environ().env@.len() == 0,
            r.environ().exit_code == 0,
            exists|t0: bool, t1: bool, t2: bool|
                r.environ().table@ == #[trigger] stdio_table::<F, D>(
                    stdin,
                    t0,
                    stdout,
                    t1,
                    stderr,
                    t2,
                ),
    {
        WasiCtxBuilder(WasiEnviron::new(stdin, stdout, stderr))
    }

    /// Replaces the standard input by `f`.
    pub fn stdin(self, f: F) -> (r: Self)
        ensures
            r.wf() == self.wf(),
            exists|t: bool|
                r.environ().table@ == self.environ().table@.insert(0, #[trigger] stdio_entry(f, t)),
            r.environ().args == self.environ().args,
            r.environ().env == self.environ().env,
    {
        let mut b = self;
        b.0.set_stdin(f);
        b
    }

    /// Replaces the standard output by `f`.
    pub fn stdout(self, f: F) -> (r: Self)
        ensures
            r.wf() == self.wf(),
            exists|t: bool|
                r.environ().table@ == self.environ().table@.insert(1, #[trigger] stdio_entry(f, t)),
            r.environ().args == self.environ().args,
            r.environ().env == self.environ().env,
    {
        let mut b = self;
        b.0.set_stdout(f);
        b
    }

    /// Replaces the standard error by `f`.
    pub fn stderr(self, f: F) -> (r: Self)
        ensures
            r.wf() == self.wf(),
            exists|t: bool|
                r.environ().table@ == self.environ().table@.insert(2, #[trigger] stdio_entry(f, t)),
            r.environ().args == self.environ().args,
            r.environ().env == self.environ().env,
    {
        let mut b = self;
        b.0.set_stderr(f);
        b
    }
}

impl<F, D> WasiCtxBuilder<F, D> {
    /// A builder whose environment has the three standard streams, each with
    /// the rights its terminal flag gives it, and nothing else.
    pub fn with_stdio(
        stdin: F,
        stdin_tty: bool,
        stdout: F,
        stdout_tty: bool,
        stderr: F,
        stderr_tty: bool,
    ) -> (r: Self)
        ensures
            r.wf(),
            r.environ().args@.len() == 0,
            r.environ().env@.len() == 0,
            r.environ().exit_code == 0,
            r.environ().table@ == stdio_table::<F, D>(
                stdin,
                stdin_tty,
                stdout,
                stdout_tty,
                stderr,
                stderr_tty,
            ),
    {
        WasiCtxBuilder(WasiEnviron::with_stdio(stdin, stdin_tty, stdout, stdout_tty, stderr, stderr_tty))
    }
}

/// Once a push is refused, pushing more does not help: every longer prefix
/// is refused with the same error.
proof fn lemma_push_all_stops(v: Seq<Seq<char>>, items: Seq<Seq<char>>, n: int)
    requires
        0 < n <= items.len(),
        push_all(v, items.subrange(0, n - 1)) is Ok,
        push_outcome(push_all(v, items.subrange(0, n - 1))->Ok_0, items[n - 1]) is Err,
    ensures
        push_all(v, items.subrange(0, n)) == Err::<Seq<Seq<char>>, StringArrayError>(
            push_outcome(push_all(v, items.subrange(0, n - 1))->Ok_0, items[n - 1])->Err_0,
        ),
{
    assert(items.subrange(0, n).drop_last() =~= items.subrange(0, n - 1));
}

/// A refusal of a prefix is the refusal of every longer one.
proof fn lemma_push_all_err_persists(v: Seq<Seq<char>>, items: Seq<Seq<char>>, n: int, m: int)
    requires
        0 <= n <= m <= items.len(),
        push_all(v, items.subrange(0, n)) is Err,
    ensures
        push_all(v, items.subrange(0, m)) == push_all(v, items.subrange(0, n)),
    decreases m - n,
{
    if m > n {
        lemma_push_all_err_persists(v, items, n, m - 1);
        assert(items.subrange(0, m).drop_last() =~= items.subrange(0, m - 1));
    }
}

} // verus!
