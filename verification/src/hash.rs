//! Hashing of stored data with Keccak-256.

use vstd::prelude::*;
use alloy_primitives::utils::Keccak256;

verus! {

#[verifier::external_type_specification]
#[verifier::external_body]
pub struct ExKeccak256(Keccak256);

/// A Keccak-256 digest.
pub type Hash = [u8; 32];

/// The bytes a Keccak-256 hasher has absorbed so far, in order.
pub uninterp spec fn keccak_absorbed(hasher: Keccak256) -> Seq<u8>;

/// The Keccak-256 digest of `data`.
pub uninterp spec fn keccak256_digest(data: Seq<u8>) -> Seq<u8>;

/// Calls `Keccak256::new` of alloy-primitives: a hasher that has absorbed nothing.
#[verifier::external_body]
fn keccak_new() -> (r: Keccak256)
    ensures
        keccak_absorbed(r) == Seq::<u8>::empty(),
{
    Keccak256::new()
}

/// Calls `Keccak256::update`, which absorbs `bytes` after what was absorbed before.
#[verifier::external_body]
fn keccak_update(hasher: &mut Keccak256, bytes: &[u8])
    ensures
        keccak_absorbed(*final(hasher)) == keccak_absorbed(*old(hasher)) + bytes@,
{
    hasher.update(bytes)
}

/// Calls `Keccak256::clone`, which copies the absorbed state.
#[verifier::external_body]
fn keccak_clone(hasher: &Keccak256) -> (r: Keccak256)
    ensures
        keccak_absorbed(r) == keccak_absorbed(*hasher),
{
    hasher.clone()
}

/// Calls `Keccak256::finalize`: the Keccak-256 digest of everything absorbed,
/// as 32 bytes. Not stated: anything about the digest beyond its being the
/// digest of those bytes.
#[verifier::external_body]
fn keccak_finalize(hasher: Keccak256) -> (r: Hash)
    ensures
        r@ == keccak256_digest(keccak_absorbed(hasher)),
{
    hasher.finalize().0
}

/// A fresh Keccak-256 hasher.
pub fn new_hasher() -> (r: Keccak256)
    ensures
        keccak_absorbed(r) == Seq::<u8>::empty(),
{
    keccak_new()
}

/// The little a hash needs from a hasher: taking bytes, and giving the digest.
pub trait MinimalHasher {
    /// The bytes written so far.
    spec fn absorbed(&self) -> Seq<u8>;

    fn write(&mut self, bytes: &[u8])
        ensures
            final(self).absorbed() == old(self).absorbed() + bytes@,
    ;

    /// The digest a hasher of this kind gives for the bytes it absorbed.
    spec fn digest_of(bytes: Seq<u8>) -> Seq<u8>;

    /// The digest of everything written so far.
    fn finish(&self) -> (r: Hash)
        ensures
            r@ == Self::digest_of(self.absorbed()),
    ;
}

impl MinimalHasher for Keccak256 {
    open spec fn absorbed(&self) -> Seq<u8> {
        keccak_absorbed(*self)
    }

    open spec fn digest_of(bytes: Seq<u8>) -> Seq<u8> {
        keccak256_digest(bytes)
    }

    fn write(&mut self, bytes: &[u8]) {
        keccak_update(self, bytes)
    }

    /// The digest of everything written; the hasher itself is left as it was.
    fn finish(&self) -> (r: Hash) {
        keccak_finalize(keccak_clone(self))
    }
}

/// A hash that stays comparable across versions: an implementation writes a
/// prefix unique to it before its content.
pub trait ForwardsCompatHash {
    /// The bytes that `hash` writes.
    spec fn hashed(&self) -> Seq<u8>;

    /// The implementation's prefix, usually a URL path.
    fn prefix(&self) -> &'static str;

    fn hash<H: MinimalHasher>(&self, hasher: &mut H)
        ensures
            final(hasher).absorbed() == old(hasher).absorbed() + self.hashed(),
    ;
}

/// What is at a path when its debug hash is taken.
pub enum PathContents {
    /// A file, with its bytes.
    File(Vec<u8>),
    Dir,
    /// Neither a file nor a directory (or nothing at all).
    Neither,
}

/// Why a debug hash could not be taken.
#[derive(Debug)]
pub enum HashError {
    /// The path is neither a file nor a directory; the path is noted.
    NeitherFileNorDir { path: String },
}

impl HashError {
    pub fn message(&self) -> (r: String)
        ensures
            r@ == "Path neither file nor directory"@,
    {
        "Path neither file nor directory".to_owned()
    }

    /// The note added to the message.
    pub fn note(&self) -> (r: String)
        ensures
            match self {
                HashError::NeitherFileNorDir { path } => r@ == "Path: "@ + path@,
            },
    {
        match self {
            HashError::NeitherFileNorDir { path } => {
                let mut r = "Path: ".to_owned();
                r.append(path.as_str());
                r
            },
        }
    }
}

/// The Keccak-256 hash of the file at `path`. Directories are not hashed yet.
pub fn debug_hash_from_path(path: String, contents: PathContents) -> (r: Result<Hash, HashError>)
    requires
        !(contents is Dir),
    ensures
        match contents {
            PathContents::File(data) => r matches Ok(h) && h@ == keccak256_digest(data@),
            _ => r matches Err(HashError::NeitherFileNorDir { path: p }) && p@ == path@,
        },
{
    match contents {
        PathContents::File(data) => {
            let mut hasher = new_hasher();
            hasher.write(data.as_slice());
            assert(hasher.absorbed() =~= data@);
            Ok(hasher.finish())
        },
        _ => Err(HashError::NeitherFileNorDir { path }),
    }
}

} // verus!
