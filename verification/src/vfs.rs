//! Snapshots of a directory tree within the project root: every file that the
//! project does not ignore, decoded by a storage, with its subdirectories as
//! nested snapshots.

use vstd::prelude::*;
use crate::root::{copy_path, display_path, is_ancestor, path_display, DefaultYitContext, RootError, YitIgnore};
use crate::storage::{File, FileError, Storage};

verus! {

/// What a directory entry is: a file with its bytes, or a subdirectory with
/// its own listing.
pub enum EntryKind {
    File(Vec<u8>),
    Dir(DirListing),
}

/// An entry of a directory listing: its file name, its canonical path as
/// components, and its contents.
pub struct DirEntry {
    pub name: String,
    pub path: Vec<String>,
    pub kind: EntryKind,
}

/// A directory to snapshot: its canonical path as components, whether it is a
/// directory, and its entries in the order they were listed.
pub struct DirListing {
    pub path: Vec<String>,
    pub is_dir: bool,
    pub entries: Vec<DirEntry>,
}

/// A snapshot of a directory: its files, and its subdirectories by name.
pub struct Vfs<'c, C, S: Storage<'c, C>> {
    pub files: Vec<File<'c, C, S>>,
    pub folders: Vec<(String, Vfs<'c, C, S>)>,
}

/// Why a snapshot failed.
#[derive(Debug)]
pub enum SnapshotError {
    /// A directory lies outside the project root, or is not a directory.
    Root(RootError),
    /// A file could not be snapshotted.
    File(FileError),
}

impl SnapshotError {
    /// The message the failure carries.
    pub fn message(&self) -> (r: String)
        ensures
            match self {
                SnapshotError::Root(RootError::NotWithinRoot { path, root }) => r@ == "Path "@
                    + path_display(path.deep_view()) + " isn't within the yit project root of "@
                    + path_display(root.deep_view()),
                SnapshotError::Root(RootError::NotADir { path }) => r@ == "Path "@ + path_display(
                    path.deep_view(),
                ) + " is not a directory"@,
                SnapshotError::File(FileError::NotAFile { path }) => r@ == "Path "@ + path@ + " is not a file"@,
                SnapshotError::File(FileError::NoFileName { path }) => r@
                    == "yit::storage::File::snapshot path has no filename"@,
                SnapshotError::File(FileError::Decode { path, error }) => r@
                    == "Couldn't decode raw data at path "@ + path@,
            },
    {
        match self {
            SnapshotError::Root(e) => e.message(),
            SnapshotError::File(e) => e.message(),
        }
    }
}

/// The directory lies within the project root and is a directory.
pub open spec fn listing_ok<I>(ctx: DefaultYitContext<I>, l: DirListing) -> bool {
    is_ancestor(ctx.dir.deep_view(), l.path.deep_view()) && l.is_dir
}

/// `err` is how the checks on the directory itself fail: first that it lies
/// within the root, then that it is a directory.
pub open spec fn listing_err<I>(ctx: DefaultYitContext<I>, l: DirListing, err: SnapshotError) -> bool {
    if !is_ancestor(ctx.dir.deep_view(), l.path.deep_view()) {
        err matches SnapshotError::Root(RootError::NotWithinRoot { path, root }) && path.deep_view()
            == l.path.deep_view() && root.deep_view() == ctx.dir.deep_view()
    } else if !l.is_dir {
        err matches SnapshotError::Root(RootError::NotADir { path }) && path.deep_view()
            == l.path.deep_view()
    } else {
        false
    }
}

/// The project ignores the entry.
pub open spec fn ignored<I: YitIgnore>(ctx: DefaultYitContext<I>, e: DirEntry) -> bool {
    ctx.ignored.ignores(e.path.deep_view())
}

/// Snapshotting the entries `es` in order can succeed with the files `fs` and
/// the folders `ds`: ignored entries are skipped, each file is decoded by the
/// storage, and each subdirectory is checked and snapshotted in turn.
pub open spec fn entries_ok<'c, I: YitIgnore, S: Storage<'c, DefaultYitContext<I>>>(
    storage: S,
    es: Seq<DirEntry>,
    fs: Seq<File<'c, DefaultYitContext<I>, S>>,
    ds: Seq<(String, Vfs<'c, DefaultYitContext<I>, S>)>,
) -> bool
    decreases es,
{
    if es.len() == 0 {
        fs.len() == 0 && ds.len() == 0
    } else {
        let prefix = es.subrange(0, es.len() - 1);
        let e = es[es.len() - 1];
        if ignored(storage.spec_state(), e) {
            entries_ok(storage, prefix, fs, ds)
        } else {
            match e.kind {
                EntryKind::File(data) => {
                    &&& fs.len() > 0
                    &&& entries_ok(storage, prefix, fs.drop_last(), ds)
                    &&& fs.last().name@ == e.name@
                    &&& storage.decodes(data@, Ok(fs.last().storage))
                },
                EntryKind::Dir(sub) => {
                    &&& ds.len() > 0
                    &&& entries_ok(storage, prefix, fs, ds.drop_last())
                    &&& ds.last().0@ == e.name@
                    &&& listing_ok(storage.spec_state(), sub)
                    &&& entries_ok(storage, sub.entries@, ds.last().1.files@, ds.last().1.folders@)
                },
            }
        }
    }
}

/// How a snapshot failed: what the entries before the failing one gave, and,
/// where a subdirectory failed, how its snapshot failed.
pub struct Failure<'c, C, S: Storage<'c, C>> {
    pub files: Seq<File<'c, C, S>>,
    pub folders: Seq<(String, Vfs<'c, C, S>)>,
    pub inner: Option<Box<Failure<'c, C, S>>>,
}

/// Snapshotting the entries `es` in order can fail with `err` as `w`
/// describes: the entries before the first failing one (ignored ones skipped)
/// succeed, and that entry's file fails to decode, or its subdirectory fails
/// its checks or its own snapshot, with `err`.
pub open spec fn entries_err<'c, I: YitIgnore, S: Storage<'c, DefaultYitContext<I>>>(
    storage: S,
    es: Seq<DirEntry>,
    err: SnapshotError,
    w: Failure<'c, DefaultYitContext<I>, S>,
) -> bool
    decreases es,
{
    if es.len() == 0 {
        false
    } else {
        let prefix = es.subrange(0, es.len() - 1);
        let e = es[es.len() - 1];
        if ignored(storage.spec_state(), e) {
            entries_err(storage, prefix, err, w)
        } else {
            ||| entries_err(storage, prefix, err, w)
            ||| {
                &&& entries_ok(storage, prefix, w.files, w.folders)
                &&& match e.kind {
                    EntryKind::File(data) => (err matches SnapshotError::File(
                        FileError::Decode { path, error },
                    ) && path@ == path_display(e.path.deep_view()) && storage.decodes(data@, Err(error))),
                    EntryKind::Dir(sub) => match w.inner {
                        Some(inner) => listing_err(storage.spec_state(), sub, err) || (listing_ok(
                            storage.spec_state(),
                            sub,
                        ) && entries_err(storage, sub.entries@, err, *inner)),
                        None => false,
                    },
                }
            }
        }
    }
}

/// `r` is an outcome of snapshotting the directory `l`: it is checked first,
/// and only then are its entries read.
pub open spec fn snaps<'c, I: YitIgnore, S: Storage<'c, DefaultYitContext<I>>>(
    storage: S,
    l: DirListing,
    r: Result<Vfs<'c, DefaultYitContext<I>, S>, SnapshotError>,
) -> bool {
    match r {
        Ok(v) => listing_ok(storage.spec_state(), l) && entries_ok(storage, l.entries@, v.files@, v.folders@),
        Err(err) => listing_err(storage.spec_state(), l, err) || (listing_ok(storage.spec_state(), l)
            && exists|w: Failure<'c, DefaultYitContext<I>, S>| #[trigger] entries_err(storage, l.entries@, err, w)),
    }
}

/// No two entries of the listing have the same name.
pub open spec fn entry_names_distinct(es: Seq<DirEntry>) -> bool {
    forall|i: int, j: int| 0 <= i < j < es.len() ==> es[i].name@ != es[j].name@
}

/// No two folders of a snapshot have the same name.
pub open spec fn folder_names_distinct<'c, C, S: Storage<'c, C>>(ds: Seq<(String, Vfs<'c, C, S>)>) -> bool {
    forall|i: int, j: int| 0 <= i < j < ds.len() ==> ds[i].0@ != ds[j].0@
}

impl<'c, I: YitIgnore + 'c, S: Storage<'c, DefaultYitContext<I>>> Vfs<'c, DefaultYitContext<I>, S> {
    /// Snapshots a directory from its listing. The directory must lie within
    /// the project root of the storage's context and be a directory; then each
    /// entry the project does not ignore is taken in turn: a file is decoded
    /// by `storage`, and a subdirectory is snapshotted the same way. The first
    /// failure stops the snapshot. When the listing names each entry once, as
    /// a directory does, so does the snapshot each folder.
    pub fn snapshot_dir(storage: &S, listing: DirListing) -> (r: Result<Vfs<'c, DefaultYitContext<I>, S>, SnapshotError>)
        ensures
            snaps(*storage, listing, r),
            entry_names_distinct(listing.entries@) ==> (r matches Ok(v) ==> folder_names_distinct(v.folders@)),
        decreases listing,
    {
        let ghost es = listing.entries@;
        let ghost l = listing;
        let state = storage.state();
        let path_copy = copy_path(&listing.path);
        match state.resolve_local_path(listing.path) {
            Err(e) => {
                return Err(SnapshotError::Root(e));
            },
            Ok(_) => {},
        }
        if !listing.is_dir {
            return Err(SnapshotError::Root(RootError::NotADir { path: path_copy }));
        }
        let n = listing.entries.len();
        let mut rest = listing.entries;
        let mut files: Vec<File<'c, DefaultYitContext<I>, S>> = Vec::new();
        let mut folders: Vec<(String, Vfs<'c, DefaultYitContext<I>, S>)> = Vec::new();
        let mut i: usize = 0;
        assert(es.subrange(0, 0) =~= Seq::<DirEntry>::empty());
        while i < n
            invariant
                n == es.len(),
                es == l.entries@,
                l == listing,
                *state == storage.spec_state(),
                listing_ok(storage.spec_state(), l),
                i <= n,
                rest@ == es.subrange(i as int, n as int),
                entries_ok(*storage, es.subrange(0, i as int), files@, folders@),
            decreases n - i,
        {
            let ghost before = es.subrange(0, i as int);
            let ghost upto = es.subrange(0, i + 1);
            assert(upto.subrange(0, upto.len() - 1) =~= before);
            assert(upto[upto.len() - 1] == es[i as int]);
            let entry = rest.remove(0);
            assert(entry == es[i as int]);
            if !state.is_ignored(&entry.path) {
                let shown = display_path(&entry.path);
                let name = entry.name;
                match entry.kind {
                    EntryKind::File(data) => {
                        match File::snapshot(storage, shown, Some(name), Some(data)) {
                            Ok(f) => {
                                let ghost old_files = files@;
                                files.push(f);
                                assert(files@.drop_last() =~= old_files);
                            },
                            Err(e) => {
                                let err = SnapshotError::File(e);
                                proof {
                                    let w = Failure { files: files@, folders: folders@, inner: None };
                                    assert(entries_err(*storage, upto, err, w));
                                    lemma_entries_err_prefix(*storage, es, i + 1, err, w);
                                    assert(listing_ok(storage.spec_state(), l));
                                    assert(snaps(*storage, l, Err(err)));
                                }
                                return Err(err);
                            },
                        }
                    },
                    EntryKind::Dir(sub) => {
                        proof {
                            vstd::seq::axiom_seq_index_decreases(es, i as int);
                            assert(decreases_to!(l => l.entries));
                            assert(decreases_to!(l.entries => l.entries@));
                            assert(decreases_to!(l.entries@ => l.entries@[i as int]));
                            assert(decreases_to!(l.entries@[i as int] => l.entries@[i as int].kind));
                            assert(decreases_to!(l.entries@[i as int].kind => sub));
                            assert(decreases_to!(listing => sub));
                        }
                        let ghost sub_l = sub;
                        match Self::snapshot_dir(storage, sub) {
                            Ok(v) => {
                                let ghost old_folders = folders@;
                                folders.push((name, v));
                                assert(folders@.drop_last() =~= old_folders);
                            },
                            Err(e) => {
                                proof {
                                    let wi = if listing_ok(storage.spec_state(), sub_l) {
                                        choose|wi: Failure<'c, DefaultYitContext<I>, S>| #[trigger]
                                            entries_err(*storage, sub_l.entries@, e, wi)
                                    } else {
                                        Failure { files: Seq::empty(), folders: Seq::empty(), inner: None }
                                    };
                                    let w = Failure { files: files@, folders: folders@, inner: Some(Box::new(wi)) };
                                    assert(entries_err(*storage, upto, e, w));
                                    lemma_entries_err_prefix(*storage, es, i + 1, e, w);
                                }
                                return Err(e);
                            },
                        }
                    },
                }
            }
            i = i + 1;
        }
        assert(es.subrange(0, n as int) =~= es);
        proof {
            lemma_folders_distinct(*storage, es, files@, folders@);
        }
        Ok(Vfs { files, folders })
    }
}

/// Once snapshotting a prefix of the entries fails with `err` as `w`
/// describes, so can snapshotting all of them.
proof fn lemma_entries_err_prefix<'c, I: YitIgnore, S: Storage<'c, DefaultYitContext<I>>>(
    storage: S,
    es: Seq<DirEntry>,
    k: int,
    err: SnapshotError,
    w: Failure<'c, DefaultYitContext<I>, S>,
)
    requires
        0 <= k <= es.len(),
        entries_err(storage, es.subrange(0, k), err, w),
    ensures
        entries_err(storage, es, err, w),
    decreases es.len() - k,
{
    if k < es.len() {
        let upto = es.subrange(0, k + 1);
        assert(upto.subrange(0, upto.len() - 1) =~= es.subrange(0, k));
        lemma_entries_err_prefix(storage, es, k + 1, err, w);
    } else {
        assert(es.subrange(0, k) =~= es);
    }
}

/// The folders of a snapshot are named after entries of the listing, in the
/// listing's order; so when the listing names each entry once, the snapshot
/// names each folder once.
pub proof fn lemma_folders_distinct<'c, I: YitIgnore, S: Storage<'c, DefaultYitContext<I>>>(
    storage: S,
    es: Seq<DirEntry>,
    fs: Seq<File<'c, DefaultYitContext<I>, S>>,
    ds: Seq<(String, Vfs<'c, DefaultYitContext<I>, S>)>,
)
    requires
        entries_ok(storage, es, fs, ds),
    ensures
        forall|j: int| 0 <= j < ds.len() ==> exists|k: int| 0 <= k < es.len() && #[trigger] ds[j].0@ == es[k].name@,
        entry_names_distinct(es) ==> folder_names_distinct(ds),
    decreases es.len(),
{
    if es.len() > 0 {
        let prefix = es.subrange(0, es.len() - 1);
        let e = es[es.len() - 1];
        let last = es.len() - 1;
        if ignored(storage.spec_state(), e) {
            lemma_folders_distinct(storage, prefix, fs, ds);
            assert forall|j: int| 0 <= j < ds.len() implies exists|k: int| 0 <= k < es.len() && #[trigger] ds[j].0@
                == es[k].name@ by {
                let k = choose|k: int| 0 <= k < prefix.len() && ds[j].0@ == prefix[k].name@;
                assert(prefix[k] == es[k]);
            }
            if entry_names_distinct(es) {
                assert(entry_names_distinct(prefix)) by {
                    assert forall|a: int, b: int| 0 <= a < b < prefix.len() implies prefix[a].name@
                        != prefix[b].name@ by {
                        assert(prefix[a] == es[a] && prefix[b] == es[b]);
                    }
                }
            }
        } else {
            match e.kind {
                EntryKind::File(_) => {
                    lemma_folders_distinct(storage, prefix, fs.drop_last(), ds);
                    assert forall|j: int| 0 <= j < ds.len() implies exists|k: int| 0 <= k < es.len()
                        && #[trigger] ds[j].0@ == es[k].name@ by {
                        let k = choose|k: int| 0 <= k < prefix.len() && ds[j].0@ == prefix[k].name@;
                        assert(prefix[k] == es[k]);
                    }
                    if entry_names_distinct(es) {
                        assert(entry_names_distinct(prefix)) by {
                            assert forall|a: int, b: int| 0 <= a < b < prefix.len() implies prefix[a].name@
                                != prefix[b].name@ by {
                                assert(prefix[a] == es[a] && prefix[b] == es[b]);
                            }
                        }
                    }
                },
                EntryKind::Dir(_) => {
                    let dp = ds.drop_last();
                    lemma_folders_distinct(storage, prefix, fs, dp);
                    assert forall|j: int| 0 <= j < ds.len() implies exists|k: int| 0 <= k < es.len()
                        && #[trigger] ds[j].0@ == es[k].name@ by {
                        if j < dp.len() {
                            assert(dp[j] == ds[j]);
                            let k = choose|k: int| 0 <= k < prefix.len() && dp[j].0@ == prefix[k].name@;
                            assert(prefix[k] == es[k]);
                        } else {
                            assert(ds[j].0@ == es[last].name@);
                        }
                    }
                    if entry_names_distinct(es) {
                        assert(entry_names_distinct(prefix)) by {
                            assert forall|a: int, b: int| 0 <= a < b < prefix.len() implies prefix[a].name@
                                != prefix[b].name@ by {
                                assert(prefix[a] == es[a] && prefix[b] == es[b]);
                            }
                        }
                        assert forall|a: int, b: int| 0 <= a < b < ds.len() implies ds[a].0@ != ds[b].0@ by {
                            if b < dp.len() {
                                assert(dp[a] == ds[a] && dp[b] == ds[b]);
                            } else {
                                assert(dp[a] == ds[a]);
                                let k = choose|k: int| 0 <= k < prefix.len() && dp[a].0@ == prefix[k].name@;
                                assert(prefix[k] == es[k]);
                                assert(es[k].name@ != es[last].name@);
                            }
                        }
                    }
                },
            }
        }
    }
}

} // verus!
