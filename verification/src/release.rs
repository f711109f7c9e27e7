//! Release levels used when building the website with `cargo-leptos`.

use vstd::prelude::*;

verus! {

/// How far a build goes towards production.
///
/// Lower variants imply the variants above them (after `Dev`):
/// `ProdOnServer` implies `PreCompress`, which implies `Release`.
#[derive(Clone, Copy, PartialEq, Eq, Structural, Debug)]
pub enum ReleaseLevel {
    Dev,
    Release,
    PreCompress,
    ProdOnServer,
}

/// Where `cargo` puts the binaries of a build.
#[derive(Clone, Copy, PartialEq, Eq, Structural, Debug)]
pub enum BinLocation {
    Debug,
    Release,
}

impl ReleaseLevel {
    /// Position of the level in the declared order, starting at 0 for `Dev`.
    pub open spec fn rank(self) -> nat {
        match self {
            ReleaseLevel::Dev => 0,
            ReleaseLevel::Release => 1,
            ReleaseLevel::PreCompress => 2,
            ReleaseLevel::ProdOnServer => 3,
        }
    }

    pub open spec fn spec_is_release(self) -> bool {
        self.rank() >= 1
    }

    pub open spec fn spec_should_precompress(self) -> bool {
        self.rank() >= 2
    }

    pub open spec fn spec_prod_on_server(self) -> bool {
        self.rank() >= 3
    }

    pub open spec fn spec_bin_location(self) -> BinLocation {
        if self == ReleaseLevel::Dev {
            BinLocation::Debug
        } else {
            BinLocation::Release
        }
    }

    /// The level used when none is asked for.
    pub fn default_level() -> (r: ReleaseLevel)
        ensures
            r == ReleaseLevel::Dev,
    {
        ReleaseLevel::Dev
    }

    fn rank_exec(self) -> (r: u8)
        ensures
            r == self.rank(),
    {
        match self {
            ReleaseLevel::Dev => 0,
            ReleaseLevel::Release => 1,
            ReleaseLevel::PreCompress => 2,
            ReleaseLevel::ProdOnServer => 3,
        }
    }

    /// Whether the build is at least `Release`.
    pub fn is_release(self) -> (r: bool)
        ensures
            r == self.spec_is_release(),
    {
        self.rank_exec() >= 1
    }

    /// Whether the build is at least `PreCompress`.
    pub fn should_precompress(self) -> (r: bool)
        ensures
            r == self.spec_should_precompress(),
    {
        self.rank_exec() >= 2
    }

    /// Whether the build is `ProdOnServer`.
    pub fn prod_on_server(self) -> (r: bool)
        ensures
            r == self.spec_prod_on_server(),
    {
        self.rank_exec() >= 3
    }

    /// Whether the production secrets are put into the build's environment.
    pub fn include_env_vars(self) -> (r: bool)
        ensures
            r == self.spec_prod_on_server(),
    {
        self.prod_on_server()
    }

    /// The directory under the target directory that holds this level's binaries.
    pub fn bin_location(self) -> (r: BinLocation)
        ensures
            r == self.spec_bin_location(),
    {
        match self {
            ReleaseLevel::Dev => BinLocation::Debug,
            ReleaseLevel::Release | ReleaseLevel::PreCompress | ReleaseLevel::ProdOnServer => {
                BinLocation::Release
            },
        }
    }
}

/// Each level implies the levels above it: a server production build is
/// pre-compressed, and a pre-compressed build is a release build.
pub proof fn lemma_levels_imply_lower_levels(level: ReleaseLevel)
    ensures
        level.spec_prod_on_server() ==> level.spec_should_precompress(),
        level.spec_should_precompress() ==> level.spec_is_release(),
{
}

/// A build's binaries are in `cargo`'s release directory exactly when the
/// build is a release build.
pub proof fn lemma_bin_location_follows_release(level: ReleaseLevel)
    ensures
        (level.spec_bin_location() == BinLocation::Release) <==> level.spec_is_release(),
{
}

} // verus!
