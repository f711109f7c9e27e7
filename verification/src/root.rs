//! The project root that version control works in, and which paths it ignores.

use vstd::prelude::*;
use crate::production::{join, joined_with};

verus! {

/// A canonical path, as its components (the first is `/` for an absolute path).
pub open spec fn components(p: &Vec<String>) -> Seq<Seq<char>> {
    p.deep_view()
}

/// `root` is one of the ancestors of `path` (a path is its own first ancestor).
pub open spec fn is_ancestor(root: Seq<Seq<char>>, path: Seq<Seq<char>>) -> bool {
    exists|k: int| 0 <= k <= path.len() && #[trigger] path.take(k) == root
}

/// Why a path was refused.
#[derive(Debug)]
pub enum RootError {
    /// The path lies outside the project root.
    NotWithinRoot { path: Vec<String>, root: Vec<String> },
    /// The path is not a directory.
    NotADir { path: Vec<String> },
}

/// A path as it is displayed: its components joined by `/`, after the leading
/// `/` of an absolute path.
pub open spec fn path_display(p: Seq<Seq<char>>) -> Seq<char> {
    if p.len() > 0 && p[0] == "/"@ {
        "/"@ + joined_with(p.drop_first(), "/"@)
    } else {
        joined_with(p, "/"@)
    }
}

/// A copy of a path.
pub fn copy_path(p: &Vec<String>) -> (r: Vec<String>)
    ensures
        r.deep_view() == p.deep_view(),
{
    let n = p.len();
    let mut r: Vec<String> = Vec::new();
    let mut i: usize = 0;
    while i < n
        invariant
            n == p.len(),
            i <= n,
            r.deep_view() == p.deep_view().take(i as int),
        decreases n - i,
    {
        let ghost before = r.deep_view();
        let c = p[i].clone();
        r.push(c);
        assert(r.deep_view() =~= before.push(c@));
        assert(p.deep_view().take(i + 1) =~= p.deep_view().take(i as int).push(p.deep_view()[i as int]));
        i = i + 1;
    }
    assert(p.deep_view().take(n as int) =~= p.deep_view());
    r
}

/// The text a path is displayed as.
pub fn display_path(p: &Vec<String>) -> (r: String)
    ensures
        r@ == path_display(p.deep_view()),
{
    let slash = "/".to_owned();
    if p.len() > 0 && p[0] == slash {
        let n = p.len();
        let mut rest: Vec<String> = Vec::new();
        let mut i: usize = 1;
        while i < n
            invariant
                n == p.len(),
                1 <= i <= n,
                rest.deep_view() == p.deep_view().subrange(1, i as int),
            decreases n - i,
        {
            let ghost before = rest.deep_view();
            let c = p[i].clone();
            rest.push(c);
            assert(rest.deep_view() =~= before.push(c@));
            assert(p.deep_view().subrange(1, i + 1) =~= p.deep_view().subrange(1, i as int).push(
                p.deep_view()[i as int],
            ));
            i = i + 1;
        }
        assert(p.deep_view().subrange(1, n as int) =~= p.deep_view().drop_first());
        let mut r = "/".to_owned();
        let tail = join(&rest, "/");
        r.append(tail.as_str());
        r
    } else {
        proof {
            if p.deep_view().len() > 0 {
                assert(p.deep_view()[0] == p@[0]@);
            }
        }
        join(p, "/")
    }
}

impl RootError {
    /// The message the refusal carries.
    pub fn message(&self) -> (r: String)
        ensures
            match self {
                RootError::NotWithinRoot { path, root } => r@ == "Path "@ + path_display(path.deep_view())
                    + " isn't within the yit project root of "@ + path_display(root.deep_view()),
                RootError::NotADir { path } => r@ == "Path "@ + path_display(path.deep_view())
                    + " is not a directory"@,
            },
    {
        match self {
            RootError::NotWithinRoot { path, root } => {
                let mut r = "Path ".to_owned();
                r.append(display_path(path).as_str());
                r.append(" isn't within the yit project root of ");
                r.append(display_path(root).as_str());
                r
            },
            RootError::NotADir { path } => {
                let mut r = "Path ".to_owned();
                r.append(display_path(path).as_str());
                r.append(" is not a directory");
                r
            },
        }
    }
}

/// Whether `prefix` is the first `prefix.len()` components of `path`.
fn starts_with(path: &Vec<String>, prefix: &Vec<String>) -> (r: bool)
    ensures
        r == (prefix@.len() <= path@.len() && path.deep_view().take(prefix@.len() as int)
            == prefix.deep_view()),
{
    let n = prefix.len();
    if n > path.len() {
        return false;
    }
    let mut i: usize = 0;
    while i < n
        invariant
            n == prefix.len(),
            n <= path.len(),
            i <= n,
            forall|t: int| 0 <= t < i ==> path.deep_view()[t] == prefix.deep_view()[t],
        decreases n - i,
    {
        if path[i] != prefix[i] {
            assert(path.deep_view().take(n as int)[i as int] != prefix.deep_view()[i as int]);
            return false;
        }
        i = i + 1;
    }
    assert(path.deep_view().take(n as int) =~= prefix.deep_view());
    true
}

/// Accepts a canonical path that lies within the canonical project root `root`.
pub fn resolve_local_path(root: &Vec<String>, path: Vec<String>) -> (r: Result<Vec<String>, RootError>)
    ensures
        match r {
            Ok(p) => p.deep_view() == path.deep_view() && is_ancestor(components(root), components(&path)),
            Err(e) => !is_ancestor(components(root), components(&path)) && (e matches RootError::NotWithinRoot {
                path: p,
                root: q,
            } && p.deep_view() == path.deep_view() && q.deep_view() == root.deep_view()),
        },
{
    let within = starts_with(&path, root);
    if within {
        assert(path.deep_view().take(root@.len() as int) == root.deep_view());
        Ok(path)
    } else {
        proof {
            assert forall|k: int| 0 <= k <= path@.len() implies #[trigger] path.deep_view().take(k)
                != root.deep_view() by {
                if path.deep_view().take(k) == root.deep_view() {
                    assert(path.deep_view().take(k).len() == k);
                    assert(root.deep_view().len() == root@.len());
                    assert(k == root@.len());
                }
            }
        }
        let root_copy = copy_path(root);
        Err(RootError::NotWithinRoot { path, root: root_copy })
    }
}

/// Decides which paths version control leaves out.
pub trait YitIgnore {
    /// Whether the path, as its components, is left out.
    spec fn ignores(&self, path: Seq<Seq<char>>) -> bool;

    fn ignored(&self, path: &Vec<String>) -> (r: bool)
        ensures
            r == self.ignores(path.deep_view()),
    ;
}

/// Ignores nothing.
#[derive(Debug)]
pub struct IgnoreNothing;

impl YitIgnore for IgnoreNothing {
    open spec fn ignores(&self, path: Seq<Seq<char>>) -> bool {
        false
    }

    fn ignored(&self, path: &Vec<String>) -> (r: bool) {
        false
    }
}

/// A project root: its canonical directory, as components, and what it ignores.
#[derive(Debug)]
pub struct DefaultYitContext<I> {
    pub dir: Vec<String>,
    pub ignored: I,
}

impl DefaultYitContext<IgnoreNothing> {
    /// The project whose canonical root is `dir`, given whether that is a
    /// directory; it ignores nothing.
    pub fn new(dir: Vec<String>, is_dir: bool) -> (r: Result<DefaultYitContext<IgnoreNothing>, RootError>)
        ensures
            is_dir ==> (r matches Ok(c) && c.dir.deep_view() == dir.deep_view()),
            !is_dir ==> (r matches Err(RootError::NotADir { path }) && path.deep_view() == dir.deep_view()),
    {
        if !is_dir {
            return Err(RootError::NotADir { path: dir });
        }
        Ok(DefaultYitContext { dir, ignored: IgnoreNothing })
    }
}

impl<I> DefaultYitContext<I> {
    /// The same project, ignoring what `ignore` ignores.
    pub fn with_ignored<J: YitIgnore>(self, ignore: J) -> (r: DefaultYitContext<J>)
        ensures
            r.dir == self.dir,
            r.ignored == ignore,
    {
        DefaultYitContext { dir: self.dir, ignored: ignore }
    }

    /// Accepts a canonical path that lies within the project root.
    pub fn resolve_local_path(&self, path: Vec<String>) -> (r: Result<Vec<String>, RootError>)
        ensures
            match r {
                Ok(p) => p.deep_view() == path.deep_view() && is_ancestor(
                    components(&self.dir),
                    components(&path),
                ),
                Err(e) => !is_ancestor(components(&self.dir), components(&path)) && (
                e matches RootError::NotWithinRoot { path: p, root: q } && p.deep_view()
                    == path.deep_view() && q.deep_view() == self.dir.deep_view()),
            },
    {
        resolve_local_path(&self.dir, path)
    }
}

impl<I: YitIgnore> DefaultYitContext<I> {
    /// Whether the project ignores `path`.
    pub fn is_ignored(&self, path: &Vec<String>) -> (r: bool)
        ensures
            r == self.ignored.ignores(path.deep_view()),
    {
        self.ignored.ignored(path)
    }
}

} // verus!
