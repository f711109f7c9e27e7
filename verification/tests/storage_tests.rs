use ymap::app_state::{App, ResumeAction, WindowAction, WindowEventKind};
use ymap::hash::{debug_hash_from_path, new_hasher, ForwardsCompatHash, HashError, MinimalHasher, PathContents};
use ymap::logs::{logs_dir_from_env, logs_dir_from_search, yit_dir_candidates, LogsDirError};
use ymap::markers::{ContextControlsMarker, HomeControlsMarker, InspectorControlsMarker, UiMarker};
use ymap::path_matching::{FileMatching, FileMatchingError};
use ymap::root::{DefaultYitContext, IgnoreNothing, RootError, YitIgnore};
use ymap::storage::{
    BuiltinEncoded, BuiltinStorages, File, FileError, PlainTextEncoded, PlainTextStorage, Storage, StorageError, TomlStorage,
};
use ymap::vfs::{DirEntry, DirListing, EntryKind, SnapshotError, Vfs};

fn texts(v: &[&str]) -> Vec<String> {
    v.iter().map(|s| s.to_string()).collect()
}

fn hex(bytes: &[u8]) -> String {
    bytes.iter().map(|b| format!("{:02x}", b)).collect()
}

#[test]
fn plaintext_roundtrip() {
    let state = ();
    let storage = PlainTextStorage::new(&state);
    let decoded = storage.decode("héllo\n".as_bytes().to_vec()).unwrap();
    assert_eq!(decoded.0, "héllo\n");
    assert_eq!(storage.encode(decoded), "héllo\n".as_bytes().to_vec());
    assert_eq!(storage.decode(vec![0xff, 0xfe]).unwrap_err(), StorageError::NotUtf8);
}

#[test]
fn toml_storage() {
    let state = ();
    let storage = TomlStorage { state: &state };
    let doc = storage.decode(b"a = 1 # one\n".to_vec()).unwrap();
    assert_eq!(storage.encode(doc), b"a = 1 # one\n".to_vec());
    assert_eq!(storage.decode(b"= =".to_vec()).unwrap_err(), StorageError::NotToml);
    assert_eq!(storage.decode(vec![0xc3]).unwrap_err(), StorageError::NotUtf8);
}

#[test]
fn builtin_storages_keep_their_kind() {
    let state = ();
    let plain: BuiltinStorages<()> = BuiltinStorages::PlainText(PlainTextStorage::new(&state));
    let encoded = plain.decode(b"x".to_vec()).unwrap();
    assert_eq!(encoded.toml().unwrap_err(), StorageError::WrongEncoding);
    let encoded = plain.decode(b"x".to_vec()).unwrap();
    assert_eq!(encoded.plaintext().unwrap().0, "x");
    let toml: BuiltinStorages<()> = BuiltinStorages::Toml(TomlStorage { state: &state });
    assert!(matches!(toml.decode(b"k = 'v'\n".to_vec()).unwrap(), BuiltinEncoded::Toml(_)));
    assert!(std::ptr::eq(toml.state(), &state));
}

#[test]
fn keccak_of_nothing_and_hash_prefix() {
    let mut hasher = new_hasher();
    assert_eq!(hex(&hasher.finish()), "c5d2460186f7233c927e7db2dcc703c0e500b653ca82273b7bfad8045d85a470");
    hasher.write(b"abc");
    assert_eq!(hex(&hasher.finish()), "4e03657aea45a94fc7d47ba826c8d667c0d1e6e33a64a036ec44f58fa12d6c45");

    let text = PlainTextEncoded("abc".to_string());
    assert_eq!(text.prefix(), "https://docs.rs/yit/latest/yit/storage/plaintext");
    let mut by_hash = new_hasher();
    text.hash(&mut by_hash);
    let mut by_hand = new_hasher();
    by_hand.write(b"https://docs.rs/yit/latest/yit/storage/plaintext");
    by_hand.write(b"abc");
    assert_eq!(by_hash.finish(), by_hand.finish());
    let mut wrapped = new_hasher();
    BuiltinEncoded::PlainText(PlainTextEncoded("abc".to_string())).hash(&mut wrapped);
    assert_eq!(wrapped.finish(), by_hand.finish());
}

#[test]
fn debug_hash_of_a_file() {
    let h = debug_hash_from_path("f".to_string(), PathContents::File(b"abc".to_vec())).unwrap();
    assert_eq!(hex(&h), "4e03657aea45a94fc7d47ba826c8d667c0d1e6e33a64a036ec44f58fa12d6c45");
    let e = debug_hash_from_path("/nothing".to_string(), PathContents::Neither).unwrap_err();
    assert!(matches!(&e, HashError::NeitherFileNorDir { path } if path == "/nothing"));
    assert_eq!(e.message(), "Path neither file nor directory");
    assert_eq!(e.note(), "Path: /nothing");
}

#[test]
fn snapshot_of_a_file() {
    let state = ();
    let storage = PlainTextStorage::new(&state);
    let file = File::snapshot(&storage, "/p/a.txt".to_string(), Some("a.txt".to_string()), Some(b"hi".to_vec())).unwrap();
    assert_eq!(file.name, "a.txt");
    assert_eq!(file.storage.0, "hi");
    let bad = File::snapshot(&storage, "/p/b".to_string(), Some("b".to_string()), Some(vec![0xff])).err().unwrap();
    assert!(matches!(&bad, FileError::Decode { path, error: StorageError::NotUtf8 } if path == "/p/b"));
    assert_eq!(bad.message(), "Couldn't decode raw data at path /p/b");
    let dir = File::snapshot(&storage, "/p".to_string(), Some("p".to_string()), None).err().unwrap();
    assert!(matches!(&dir, FileError::NotAFile { path } if path == "/p"));
    let root = File::snapshot(&storage, "/".to_string(), None, Some(vec![])).err().unwrap();
    assert_eq!(root.message(), "yit::storage::File::snapshot path has no filename");
}

fn file_entry(dir: &[&str], name: &str, data: &[u8]) -> DirEntry {
    let mut path = texts(dir);
    path.push(name.to_string());
    DirEntry { name: name.to_string(), path, kind: EntryKind::File(data.to_vec()) }
}

fn project() -> DefaultYitContext<IgnoreNothing> {
    DefaultYitContext::new(texts(&["/", "p"]), true).unwrap()
}

#[test]
fn snapshot_of_a_tree() {
    let ctx = project();
    let storage = PlainTextStorage::new(&ctx);
    let listing = DirListing {
        path: texts(&["/", "p"]),
        is_dir: true,
        entries: vec![
            file_entry(&["/", "p"], "a.txt", b"A"),
            DirEntry {
                name: "sub".to_string(),
                path: texts(&["/", "p", "sub"]),
                kind: EntryKind::Dir(DirListing {
                    path: texts(&["/", "p", "sub"]),
                    is_dir: true,
                    entries: vec![file_entry(&["/", "p", "sub"], "b.txt", b"B")],
                }),
            },
        ],
    };
    let vfs = Vfs::snapshot_dir(&storage, listing).unwrap();
    assert_eq!(vfs.files.len(), 1);
    assert_eq!(vfs.files[0].name, "a.txt");
    assert_eq!(vfs.folders.len(), 1);
    assert_eq!(vfs.folders[0].0, "sub");
    assert_eq!(vfs.folders[0].1.files[0].storage.0, "B");
}

#[test]
fn snapshot_stops_at_first_failure() {
    let ctx = project();
    let storage = PlainTextStorage::new(&ctx);
    let listing = DirListing {
        path: texts(&["/", "p"]),
        is_dir: true,
        entries: vec![DirEntry {
            name: "sub".to_string(),
            path: texts(&["/", "p", "sub"]),
            kind: EntryKind::Dir(DirListing {
                path: texts(&["/", "p", "sub"]),
                is_dir: true,
                entries: vec![file_entry(&["/", "p", "sub"], "bad", &[0xff])],
            }),
        }],
    };
    let err = Vfs::snapshot_dir(&storage, listing).err().unwrap();
    assert!(matches!(&err, SnapshotError::File(FileError::Decode { path, error: StorageError::NotUtf8 }) if path == "/p/sub/bad"));
    assert_eq!(err.message(), "Couldn't decode raw data at path /p/sub/bad");
}

#[test]
fn snapshot_checks_the_directory_first() {
    let ctx = project();
    let storage = PlainTextStorage::new(&ctx);
    let outside = DirListing { path: texts(&["/", "q"]), is_dir: true, entries: vec![file_entry(&["/", "q"], "x", &[0xff])] };
    let err = Vfs::snapshot_dir(&storage, outside).err().unwrap();
    assert!(matches!(&err, SnapshotError::Root(RootError::NotWithinRoot { .. })));
    assert_eq!(err.message(), "Path /q isn't within the yit project root of /p");
    let not_dir = DirListing { path: texts(&["/", "p", "f"]), is_dir: false, entries: vec![] };
    let err = Vfs::snapshot_dir(&storage, not_dir).err().unwrap();
    assert!(matches!(&err, SnapshotError::Root(RootError::NotADir { .. })));
}

#[test]
fn resolve_local_path() {
    let root = texts(&["/", "home", "me", "ymap"]);
    let path = texts(&["/", "home", "me", "ymap", "src", "lib.rs"]);
    assert_eq!(ymap::root::resolve_local_path(&root, path.clone()).unwrap(), path);
}

#[test]
fn paths_outside_the_root_are_refused() {
    let root = texts(&["/", "home", "me", "ymap"]);
    let err = ymap::root::resolve_local_path(&root, texts(&["/", "home", "me"])).unwrap_err();
    assert!(matches!(&err, RootError::NotWithinRoot { path, .. } if path == &texts(&["/", "home", "me"])));
    assert_eq!(err.message(), "Path /home/me isn't within the yit project root of /home/me/ymap");
    assert!(matches!(ymap::root::resolve_local_path(&root, texts(&["/", "home", "you", "ymap"])), Err(RootError::NotWithinRoot { .. })));
    assert_eq!(ymap::root::display_path(&texts(&["a", "b"])), "a/b");
    assert_eq!(ymap::root::resolve_local_path(&root, root.clone()).unwrap(), root);
}

#[test]
fn default_context() {
    let err = DefaultYitContext::new(texts(&["/", "x"]), false).unwrap_err();
    assert!(matches!(&err, RootError::NotADir { .. }));
    assert_eq!(err.message(), "Path /x is not a directory");
    let ctx = DefaultYitContext::new(texts(&["/", "x"]), true).unwrap().with_ignored(IgnoreNothing);
    assert!(!ctx.is_ignored(&texts(&["/", "x", "a"])));
    assert!(ctx.resolve_local_path(texts(&["/", "y"])).is_err());
    assert!(!IgnoreNothing.ignored(&texts(&["a"])));
}

#[test]
fn logs_directory() {
    let env = logs_dir_from_env("/var/log/yit".to_string(), false);
    assert_eq!(env.dir, "/var/log/yit");
    assert!(env.create);
    let candidates = yit_dir_candidates("/a/b");
    assert_eq!(candidates, texts(&["/a/b/.yit", "/a/.yit", "/.yit"]));
    let found = logs_dir_from_search("/a/b".to_string(), &candidates, &vec![false, true, true]).unwrap();
    assert_eq!(found.dir, "/a/.yit/logs");
    let err = logs_dir_from_search("/a/b".to_string(), &candidates, &vec![false, false, false]).unwrap_err();
    assert!(matches!(&err, LogsDirError::NoYitDir { cwd } if cwd == "/a/b"));
    assert_eq!(err.message(), "No .yit directory found to send logs to");
    assert_eq!(err.note(), "CWD: /a/b");
}

#[test]
fn file_matching_needs_its_file() {
    assert_eq!(FileMatching::matching_file("/p"), "/p/matching.rs");
    let err = FileMatching::new("/p", false).unwrap_err();
    assert!(matches!(&err, FileMatchingError::NotAFile { path } if path == "/p/matching.rs"));
    assert_eq!(err.message(), "File path /p/matching.rs isn't a file");
}

#[test]
fn ui_panels() {
    assert_eq!(HomeControlsMarker::name(), "Home Controls");
    assert_eq!(ContextControlsMarker::name(), "Context");
    assert_eq!(InspectorControlsMarker::name(), "Inspector");
}

#[test]
fn window_life_cycle() {
    let app: App<u8> = App::new();
    assert_eq!(app.resumed(), ResumeAction::SetUp);
    assert_eq!(app.setup().unwrap_err(), "App state is initial not setup");
    let failed: App<u8> = App::FatalError("no gpu".to_string());
    assert_eq!(failed.resumed(), ResumeAction::ReportError);
    assert_eq!(failed.setup().unwrap_err(), "App state is fatally errored not setup: no gpu");
    let ready = App::Setup(7u8);
    assert_eq!(*ready.setup().unwrap(), 7);
    assert_eq!(ready.resumed(), ResumeAction::NoteAlreadySetup);
    assert_eq!(ready.window_event(WindowEventKind::CloseRequested), WindowAction::Exit);
    assert_eq!(ready.window_event(WindowEventKind::RedrawRequested), WindowAction::RequestRedraw);
    assert_eq!(ready.window_event(WindowEventKind::Other), WindowAction::Nothing);
}

#[test]
fn plaintext_and_toml_hashes_differ() {
    let state = ();
    let toml = TomlStorage { state: &state }.decode(b"a = 1\n".to_vec()).unwrap();
    let mut toml_hash = new_hasher();
    toml.hash(&mut toml_hash);
    let mut text_hash = new_hasher();
    PlainTextEncoded("a = 1\n".to_string()).hash(&mut text_hash);
    assert_ne!(toml_hash.finish(), text_hash.finish());
    assert_eq!(toml.prefix(), "https://docs.rs/yit/latest/yit/storage/toml");
}
