//! Directory listings: the synthetic "." and ".." entries, then the backing
//! store's own entries in its order, each numbered with the cursor that
//! resumes the listing after it.
use vstd::prelude::*;

use crate::error::Error;
use crate::file::FileType;

verus! {

/// One entry as the backing store enumerates it.
pub struct NativeEntry {
    pub filetype: FileType,
    pub inode: u64,
    pub name: String,
}

pub struct NativeEntryView {
    pub filetype: FileType,
    pub inode: u64,
    pub name: Seq<char>,
}

/// One element of a listing; `next` resumes the listing right after it.
pub struct ReaddirEntity {
    pub next: u64,
    pub filetype: FileType,
    pub inode: u64,
    pub name: String,
}

pub struct ReaddirEntityView {
    pub next: nat,
    pub filetype: FileType,
    pub inode: u64,
    pub name: Seq<char>,
}

pub open spec fn native_view(r: Result<NativeEntry, Error>) -> Result<NativeEntryView, Error> {
    match r {
        Ok(e) => Ok(NativeEntryView { filetype: e.filetype, inode: e.inode, name: e.name@ }),
        Err(e) => Err(e),
    }
}

pub open spec fn entity_view(r: Result<ReaddirEntity, Error>) -> Result<ReaddirEntityView, Error> {
    match r {
        Ok(e) => Ok(
            ReaddirEntityView { next: e.next as nat, filetype: e.filetype, inode: e.inode, name: e.name@ },
        ),
        Err(e) => Err(e),
    }
}

pub open spec fn natives_view(v: Seq<Result<NativeEntry, Error>>) -> Seq<Result<NativeEntryView, Error>> {
    v.map_values(|r: Result<NativeEntry, Error>| native_view(r))
}

pub open spec fn entities_view(v: Seq<Result<ReaddirEntity, Error>>) -> Seq<
    Result<ReaddirEntityView, Error>,
> {
    v.map_values(|r: Result<ReaddirEntity, Error>| entity_view(r))
}

/// The directory itself, then its parent, both with the directory's inode.
pub open spec fn dot_entries(dir_ino: u64) -> Seq<Result<NativeEntryView, Error>> {
    seq![
        Ok(NativeEntryView { filetype: FileType::Directory, inode: dir_ino, name: seq!['.'] }),
        Ok(NativeEntryView { filetype: FileType::Directory, inode: dir_ino, name: seq!['.', '.'] }),
    ]
}

/// Every element of a listing from its start, before numbering.
pub open spec fn full_listing(dir_ino: u64, native: Seq<Result<NativeEntryView, Error>>) -> Seq<
    Result<NativeEntryView, Error>,
> {
    dot_entries(dir_ino) + native
}

/// The element at position `pos`, numbered with the cursor after it.
pub open spec fn entity_at(e: Result<NativeEntryView, Error>, pos: int) -> Result<
    ReaddirEntityView,
    Error,
> {
    match e {
        Ok(n) => Ok(
            ReaddirEntityView {
                next: (pos + 1) as nat,
                filetype: n.filetype,
                inode: n.inode,
                name: n.name,
            },
        ),
        Err(x) => Err(x),
    }
}

/// The listing that resumes at `cursor`: the elements of the full listing
/// from position `cursor` on, each numbered with its position plus one.
pub open spec fn listing(dir_ino: u64, native: Seq<Result<NativeEntryView, Error>>, cursor: int) -> Seq<
    Result<ReaddirEntityView, Error>,
> {
    let full = full_listing(dir_ino, native);
    if cursor >= full.len() {
        Seq::empty()
    } else {
        Seq::new((full.len() - cursor) as nat, |j: int| entity_at(full[cursor + j], cursor + j))
    }
}

fn to_entity(e: Result<NativeEntry, Error>, pos: u64) -> (r: Result<ReaddirEntity, Error>)
    requires
        pos < u64::MAX,
    ensures
        entity_view(r) == entity_at(native_view(e), pos as int),
{
    match e {
        Ok(n) => Ok(ReaddirEntity { next: pos + 1, filetype: n.filetype, inode: n.inode, name: n.name }),
        Err(x) => Err(x),
    }
}

/// Lists a directory whose inode is `dir_ino` and whose backing store
/// enumerates `native`, resuming after the first `cursor` elements. An
/// element that could not be read stays an error in its place.
pub fn readdir_listing(dir_ino: u64, native: Vec<Result<NativeEntry, Error>>, cursor: u64) -> (r: Vec<
    Result<ReaddirEntity, Error>,
>)
    requires
        native@.len() + 2 <= usize::MAX,
    ensures
        entities_view(r@) == listing(dir_ino, natives_view(native@), cursor as int),
{
    let ghost full = full_listing(dir_ino, natives_view(native@));
    let mut items: Vec<Result<NativeEntry, Error>> = Vec::new();
    let dot = ".".to_owned();
    let dotdot = "..".to_owned();
    proof {
        reveal_strlit(".");
        reveal_strlit("..");
        assert(dot@ =~= seq!['.']);
        assert(dotdot@ =~= seq!['.', '.']);
    }
    items.push(Ok(NativeEntry { filetype: FileType::Directory, inode: dir_ino, name: dot }));
    items.push(Ok(NativeEntry { filetype: FileType::Directory, inode: dir_ino, name: dotdot }));
    let ghost dots = items@;
    let mut rest = native;
    items.append(&mut rest);
    let n = items.len();
    assert(items@ == dots + native@);
    assert forall|k: int| 0 <= k < n implies #[trigger] natives_view(items@)[k] == full[k] by {
        if k >= 2 {
            assert(items@[k] == native@[k - 2]);
        } else {
            assert(items@[k] == dots[k]);
        }
    }
    assert(natives_view(items@) =~= full);
    let ghost all = items@;

    let mut rev: Vec<Result<ReaddirEntity, Error>> = Vec::new();
    while (items.len() as u64) > cursor
        invariant
            items@ == all.subrange(0, items@.len() as int),
            items@.len() <= n,
            items@.len() as int >= (if cursor as int >= n { n as int } else { cursor as int }),
            n == all.len(),
            n == full.len(),
            n <= usize::MAX,
            natives_view(all) == full,
            rev@.len() == n - items@.len(),
            forall|k: int|
                0 <= k < rev@.len() ==> entity_view(#[trigger] rev@[k]) == entity_at(
                    full[n - 1 - k],
                    n - 1 - k,
                ),
        decreases items@.len(),
    {
        let pos = items.len() - 1;
        let e = items.pop().unwrap();
        proof {
            assert(native_view(all[pos as int]) == full[pos as int]);
        }
        let ent = to_entity(e, pos as u64);
        rev.push(ent);
        assert(items@ =~= all.subrange(0, items@.len() as int));
    }
    let start = items.len();
    assert(start as int == if cursor as int >= n { n as int } else { cursor as int });

    let mut out: Vec<Result<ReaddirEntity, Error>> = Vec::new();
    while rev.len() > 0
        invariant
            n == full.len(),
            start <= n,
            rev@.len() + out@.len() == n - start,
            forall|k: int|
                0 <= k < rev@.len() ==> entity_view(#[trigger] rev@[k]) == entity_at(
                    full[n - 1 - k],
                    n - 1 - k,
                ),
            forall|k: int|
                0 <= k < out@.len() ==> entity_view(#[trigger] out@[k]) == entity_at(
                    full[start + k],
                    start + k,
                ),
        decreases rev@.len(),
    {
        let e = rev.pop().unwrap();
        out.push(e);
    }
    assert(entities_view(out@) =~= listing(dir_ino, natives_view(native@), cursor as int));
    out
}

/// Resuming at cursor `c` yields exactly the elements of the listing from the
/// start that come after its first `c`, with the same names, types and cursors.
pub proof fn lemma_readdir_resume(dir_ino: u64, native: Seq<Result<NativeEntryView, Error>>, c: int)
    requires
        0 <= c <= native.len() + 2,
    ensures
        listing(dir_ino, native, c) == listing(dir_ino, native, 0).subrange(c, native.len() + 2int),
{
    assert(listing(dir_ino, native, c) =~= listing(dir_ino, native, 0).subrange(c, native.len() + 2int));
}

/// From cursor 0 a listing has two elements more than the store, "." and
/// ".." first, then the store's own in its order, numbered 1, 2, 3, ... .
pub proof fn lemma_readdir_from_start(dir_ino: u64, native: Seq<Result<NativeEntryView, Error>>)
    ensures
        listing(dir_ino, native, 0).len() == native.len() + 2,
        listing(dir_ino, native, 0)[0] matches Ok(d) && d.name == seq!['.'] && d.next == 1
            && d.filetype == FileType::Directory && d.inode == dir_ino,
        listing(dir_ino, native, 0)[1] matches Ok(d) && d.name == seq!['.', '.'] && d.next == 2
            && d.filetype == FileType::Directory && d.inode == dir_ino,
        forall|j: int|
            0 <= j < native.len() ==> #[trigger] listing(dir_ino, native, 0)[j + 2] == entity_at(
                native[j],
                j + 2,
            ),
        forall|j: int|
            0 <= j < native.len() + 2 ==> (#[trigger] listing(dir_ino, native, 0)[j] matches Ok(d)
                ==> d.next == j + 1),
{
    let l = listing(dir_ino, native, 0);
    let full = full_listing(dir_ino, native);
    assert(full[0] == dot_entries(dir_ino)[0]);
    assert(full[1] == dot_entries(dir_ino)[1]);
    assert forall|j: int| 0 <= j < native.len() implies #[trigger] l[j + 2] == entity_at(
        native[j],
        j + 2,
    ) by {
        assert(full[j + 2] == native[j]);
    }
}

} // verus!
