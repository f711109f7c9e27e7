//! The project's file-matching rules, read from `matching.rs` in its root.

use vstd::prelude::*;
use crate::paths::{camino_join, joined};

verus! {

/// The rules that match files to their storages.
#[derive(Debug)]
pub struct FileMatching {}

/// Why the matching rules could not be read.
#[derive(Debug)]
pub enum FileMatchingError {
    /// The rules file is not a file.
    NotAFile { path: String },
}

impl FileMatchingError {
    pub fn message(&self) -> (r: String)
        ensures
            match self {
                FileMatchingError::NotAFile { path } => r@ == "File path "@ + path@ + " isn't a file"@,
            },
    {
        match self {
            FileMatchingError::NotAFile { path } => {
                let mut r = "File path ".to_owned();
                r.append(path.as_str());
                r.append(" isn't a file");
                r
            },
        }
    }
}

impl FileMatching {
    /// The file the rules are read from: `matching.rs` in the project root.
    pub fn matching_file(yit_root: &str) -> (r: String)
        ensures
            r@ == joined(yit_root@, "matching.rs"@),
    {
        proof {
            reveal_strlit("matching.rs");
        }
        camino_join(yit_root, "matching.rs")
    }

    /// Reads the rules of the project at `yit_root`, given whether its rules
    /// file is a file. Reading the rules themselves is not written yet, so
    /// only a missing rules file is handled.
    pub fn new(yit_root: &str, is_file: bool) -> (r: Result<FileMatching, FileMatchingError>)
        requires
            !is_file,
        ensures
            r matches Err(FileMatchingError::NotAFile { path }) && path@ == joined(
                yit_root@,
                "matching.rs"@,
            ),
    {
        let file = Self::matching_file(yit_root);
        Err(FileMatchingError::NotAFile { path: file })
    }
}

} // verus!
