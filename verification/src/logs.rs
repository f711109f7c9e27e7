//! Where the editor writes its logs: the directory named at build time by
//! `RUST_LOG_DIR`, else `logs` in the nearest `.yit` directory above the
//! current one.

use vstd::prelude::*;
use crate::paths::{camino_join, joined};

verus! {

/// What `camino::Utf8Path::ancestors` yields for a path, in order.
pub uninterp spec fn camino_ancestors(path: Seq<char>) -> Seq<Seq<char>>;

/// Calls `camino::Utf8Path::ancestors`: the path itself, then its parent, its
/// parent's parent and so on. As its documentation says, the path itself
/// always comes first; what the parents are is left to the name.
#[verifier::external_body]
fn ancestors(path: &str) -> (r: Vec<String>)
    ensures
        r.deep_view() == camino_ancestors(path@),
        r@.len() >= 1,
        r@[0]@ == path@,
{
    camino::Utf8Path::new(path).ancestors().map(|a| a.as_str().to_owned()).collect()
}

/// The directory logs go to, and whether it has to be created first.
#[derive(Debug)]
pub struct LogsDir {
    pub dir: String,
    pub create: bool,
}

/// Why no logs directory was found.
#[derive(Debug)]
pub enum LogsDirError {
    /// No `.yit` directory lies above the current directory, noted here.
    NoYitDir { cwd: String },
}

impl LogsDirError {
    pub fn message(&self) -> (r: String)
        ensures
            r@ == "No .yit directory found to send logs to"@,
    {
        "No .yit directory found to send logs to".to_owned()
    }

    /// The note added to the message.
    pub fn note(&self) -> (r: String)
        ensures
            match self {
                LogsDirError::NoYitDir { cwd } => r@ == "CWD: "@ + cwd@,
            },
    {
        match self {
            LogsDirError::NoYitDir { cwd } => {
                let mut r = "CWD: ".to_owned();
                r.append(cwd.as_str());
                r
            },
        }
    }
}

/// The logs directory named by `RUST_LOG_DIR`, created unless it is already a directory.
pub fn logs_dir_from_env(dir: String, is_dir: bool) -> (r: LogsDir)
    ensures
        r.dir@ == dir@,
        r.create == !is_dir,
{
    LogsDir { dir, create: !is_dir }
}

/// The `.yit` directories that may hold the logs, nearest first: one in the
/// current directory and one in each of its ancestors.
pub fn yit_dir_candidates(cwd: &str) -> (r: Vec<String>)
    ensures
        r@.len() == camino_ancestors(cwd@).len(),
        r@.len() >= 1,
        r@[0]@ == joined(cwd@, ".yit"@),
        forall|i: int| 0 <= i < r@.len() ==> #[trigger] r@[i]@ == joined(camino_ancestors(cwd@)[i], ".yit"@),
{
    proof {
        reveal_strlit(".yit");
    }
    let dirs = ancestors(cwd);
    let n = dirs.len();
    let mut r: Vec<String> = Vec::new();
    let mut i: usize = 0;
    while i < n
        invariant
            n == dirs.len(),
            dirs.deep_view() == camino_ancestors(cwd@),
            i <= n,
            r@.len() == i,
            forall|t: int| 0 <= t < i ==> #[trigger] r@[t]@ == joined(camino_ancestors(cwd@)[t], ".yit"@),
        decreases n - i,
    {
        assert(dirs.deep_view()[i as int] == dirs@[i as int]@);
        r.push(camino_join(dirs[i].as_str(), ".yit"));
        i = i + 1;
    }
    assert(r@[0]@ == joined(camino_ancestors(cwd@)[0], ".yit"@));
    assert(dirs.deep_view()[0] == dirs@[0]@);
    r
}

/// The logs directory when `RUST_LOG_DIR` was not set: `logs` in the first of
/// the candidates that is a directory, which is created if need be; an error
/// when none is.
pub fn logs_dir_from_search(cwd: String, candidates: &Vec<String>, is_dir: &Vec<bool>) -> (r: Result<
    LogsDir,
    LogsDirError,
>)
    requires
        candidates@.len() == is_dir@.len(),
    ensures
        match r {
            Ok(l) => exists|i: int|
                0 <= i < is_dir@.len() && #[trigger] is_dir@[i] && (forall|j: int|
                    0 <= j < i ==> !#[trigger] is_dir@[j]) && l.dir@ == joined(candidates@[i]@, "logs"@)
                    && l.create,
            Err(e) => (forall|j: int| 0 <= j < is_dir@.len() ==> !#[trigger] is_dir@[j]) && (
            e matches LogsDirError::NoYitDir { cwd: c } && c@ == cwd@),
        },
{
    proof {
        reveal_strlit("logs");
    }
    let n = is_dir.len();
    let mut i: usize = 0;
    while i < n
        invariant
            n == is_dir@.len(),
            n == candidates@.len(),
            i <= n,
            forall|j: int| 0 <= j < i ==> !#[trigger] is_dir@[j],
        decreases n - i,
    {
        if is_dir[i] {
            let dir = camino_join(candidates[i].as_str(), "logs");
            let r = LogsDir { dir, create: true };
            assert(is_dir@[i as int]);
            return Ok(r);
        }
        i = i + 1;
    }
    Err(LogsDirError::NoYitDir { cwd })
}

} // verus!
