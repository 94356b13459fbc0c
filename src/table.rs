//! The descriptor table: the single owner of every entry, which hands out
//! descriptor numbers and takes them back.
use vstd::prelude::*;

use crate::entry::{Entry, EntryKind};
use crate::error::{Error, ErrorKind};
use std::collections::HashMap;

verus! {

broadcast use vstd::std_specs::hash::group_hash_axioms;

/// `fd` is free in `m` and every lower number is taken: the descriptor that
/// an insertion without a number receives.
pub open spec fn is_lowest_free<E>(m: Map<u32, E>, fd: u32) -> bool {
    &&& !m.contains_key(fd)
    &&& forall|k: u32| k < fd ==> #[trigger] m.contains_key(k)
}

/// Every descriptor number is taken.
pub open spec fn is_full<E>(m: Map<u32, E>) -> bool {
    forall|k: u32| #[trigger] m.contains_key(k)
}

/// Entries keyed by descriptor number.
pub struct Table<F, D> {
    map: HashMap<u32, Entry<F, D>>,
}

impl<F, D> View for Table<F, D> {
    type V = Map<u32, Entry<F, D>>;

    closed spec fn view(&self) -> Map<u32, Entry<F, D>> {
        self.map@
    }
}

impl<F, D> Table<F, D> {
    pub fn new() -> (r: Table<F, D>)
        ensures
            r@ == Map::<u32, Entry<F, D>>::empty(),
    {
        Table { map: HashMap::new() }
    }

    /// Installs `entry` at `fd`, dropping whatever stood there.
    pub fn insert_at(&mut self, fd: u32, entry: Entry<F, D>)
        ensures
            final(self)@ == old(self)@.insert(fd, entry),
    {
        self.map.insert(fd, entry);
    }

    /// Installs `entry` at the lowest free descriptor and returns it; fails
    /// only when every number is taken.
    pub fn push(&mut self, entry: Entry<F, D>) -> (r: Result<u32, Error>)
        ensures
            match r {
                Ok(fd) => is_lowest_free(old(self)@, fd) && final(self)@ == old(self)@.insert(
                    fd,
                    entry,
                ),
                Err(e) => e.kind == ErrorKind::TableFull && is_full(old(self)@) && final(self)@
                    == old(self)@,
            },
    {
        let mut fd: u32 = 0;
        while self.map.contains_key(&fd)
            invariant
                self@ == old(self)@,
                forall|k: u32| k < fd ==> #[trigger] self@.contains_key(k),
            decreases u32::MAX - fd,
        {
            if fd == u32::MAX {
                assert forall|k: u32| #[trigger] self@.contains_key(k) by {
                    if k < fd {
                    }
                }
                return Err(Error::new(ErrorKind::TableFull).context("no free descriptor"));
            }
            fd = fd + 1;
        }
        self.map.insert(fd, entry);
        Ok(fd)
    }

    pub fn contains_key(&self, fd: u32) -> (r: bool)
        ensures
            r == self@.contains_key(fd),
    {
        self.map.contains_key(&fd)
    }

    /// The entry at `fd`.
    pub fn get(&self, fd: u32) -> (r: Result<&Entry<F, D>, Error>)
        ensures
            r is Ok <==> self@.contains_key(fd),
            r matches Ok(e) ==> *e == self@[fd],
            r matches Err(e) ==> e.kind == ErrorKind::NoSuchDescriptor,
    {
        match self.map.get(&fd) {
            Some(e) => Ok(e),
            None => Err(Error::new(ErrorKind::NoSuchDescriptor).context("descriptor not in table")),
        }
    }

    /// The entry at `fd`, to be changed in place.
    pub fn get_mut(&mut self, fd: u32) -> (r: Result<&mut Entry<F, D>, Error>)
        ensures
            r is Ok <==> old(self)@.contains_key(fd),
            r matches Ok(e) ==> *e == old(self)@[fd] && final(self)@ == old(self)@.insert(
                fd,
                *final(e),
            ),
            r matches Err(e) ==> e.kind == ErrorKind::NoSuchDescriptor && final(self)@ == old(self)@,
    {
        match self.map.entry(fd) {
            std::collections::hash_map::Entry::Occupied(o) => Ok(o.into_mut()),
            std::collections::hash_map::Entry::Vacant(_) => Err(
                Error::new(ErrorKind::NoSuchDescriptor).context("descriptor not in table"),
            ),
        }
    }

    /// The entry at `fd`, which must be of kind `kind`.
    pub fn get_as(&self, fd: u32, kind: EntryKind) -> (r: Result<&Entry<F, D>, Error>)
        ensures
            r is Ok <==> self@.contains_key(fd) && self@[fd].spec_kind() == kind,
            r matches Ok(e) ==> *e == self@[fd],
            r matches Err(e) ==> e.kind == (if self@.contains_key(fd) {
                ErrorKind::WrongKind
            } else {
                ErrorKind::NoSuchDescriptor
            }),
    {
        let e = self.get(fd)?;
        if e.kind() == kind {
            Ok(e)
        } else {
            Err(Error::new(ErrorKind::WrongKind).context("entry is of the other kind"))
        }
    }

    /// Detaches and returns the entry at `fd`.
    pub fn remove(&mut self, fd: u32) -> (r: Result<Entry<F, D>, Error>)
        ensures
            r is Ok <==> old(self)@.contains_key(fd),
            r matches Ok(e) ==> e == old(self)@[fd],
            r matches Err(e) ==> e.kind == ErrorKind::NoSuchDescriptor,
            final(self)@ == old(self)@.remove(fd),
    {
        match self.map.remove(&fd) {
            Some(e) => Ok(e),
            None => {
                assert(old(self)@.remove(fd) =~= old(self)@);
                Err(Error::new(ErrorKind::NoSuchDescriptor).context("descriptor not in table"))
            },
        }
    }

    /// Whether `fd` holds a directory installed as a root of the guest's view.
    pub fn is_preopen(&self, fd: u32) -> (r: bool)
        ensures
            r == (self@.contains_key(fd) && self@[fd].spec_is_preopen()),
    {
        match self.map.get(&fd) {
            Some(Entry::Dir(d)) => d.preopen_path.is_some(),
            _ => false,
        }
    }
}

/// Each descriptor names its own slot: installing or removing an entry at one
/// number leaves what every other number holds as it was.
pub proof fn lemma_descriptors_distinct<E>(m: Map<u32, E>, d1: u32, d2: u32, e: E)
    requires
        d1 != d2,
    ensures
        m.insert(d1, e).contains_key(d2) == m.contains_key(d2),
        m.contains_key(d2) ==> m.insert(d1, e)[d2] == m[d2],
        m.remove(d1).contains_key(d2) == m.contains_key(d2),
        m.contains_key(d2) ==> m.remove(d1)[d2] == m[d2],
        m.insert(d1, e)[d1] == e,
{
}

/// After removing `d`, `d` names nothing; and where every lower number is
/// taken, the next insertion without a number receives `d` again.
pub proof fn lemma_reuse_after_removal<E>(m: Map<u32, E>, d: u32, fd: u32)
    requires
        forall|k: u32| k < d ==> #[trigger] m.contains_key(k),
        is_lowest_free(m.remove(d), fd),
    ensures
        !m.remove(d).contains_key(d),
        fd == d,
{
    if fd < d {
        assert(m.contains_key(fd));
        assert(m.remove(d).contains_key(fd));
    }
    if fd > d {
        assert(m.remove(d).contains_key(d));
    }
}

} // verus!
