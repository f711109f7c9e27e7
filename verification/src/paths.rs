//! Paths on the deployment server and in the local build directory.

use vstd::prelude::*;
use crate::release::{BinLocation, ReleaseLevel};

verus! {

/// `base` with the path `name` adjoined, as `Path::push` does it: an absolute
/// `name` replaces `base`; else a separator is put between them unless `base`
/// is empty or already ends in one.
pub open spec fn joined(base: Seq<char>, name: Seq<char>) -> Seq<char> {
    if name.len() > 0 && name[0] == '/' {
        name
    } else if base.len() == 0 {
        name
    } else if base.last() == '/' {
        base + name
    } else {
        base + seq!['/'] + name
    }
}

/// Calls `camino::Utf8Path::join`, which (through std's `PathBuf::push`)
/// replaces `base` by an absolute `name`, and otherwise appends `name` after a
/// separator that is added only when `base` is nonempty and does not already
/// end in `/`.
#[verifier::external_body]
pub(crate) fn camino_join(base: &str, name: &str) -> (r: String)
    ensures
        r@ == joined(base@, name@),
{
    camino::Utf8Path::new(base).join(name).into_string()
}

/// A directory on the server; the path is not checked to exist.
#[derive(Clone, Debug)]
pub struct RemoteDir {
    pub path: String,
}

/// A file on the server; the path is not checked to exist.
#[derive(Clone, Debug)]
pub struct RemoteFile {
    pub path: String,
}

impl RemoteDir {
    pub fn new_unchecked(path: String) -> (r: RemoteDir)
        ensures
            r.path@ == path@,
    {
        RemoteDir { path }
    }

    /// The subdirectory `name`.
    pub fn dir(&self, name: &str) -> (r: RemoteDir)
        ensures
            r.path@ == joined(self.path@, name@),
    {
        RemoteDir { path: camino_join(self.path.as_str(), name) }
    }

    /// The file `name` in this directory.
    pub fn file(&self, name: &str) -> (r: RemoteFile)
        ensures
            r.path@ == joined(self.path@, name@),
    {
        RemoteFile { path: camino_join(self.path.as_str(), name) }
    }
}

impl RemoteFile {
    pub fn new_unchecked(path: String) -> (r: RemoteFile)
        ensures
            r.path@ == path@,
    {
        RemoteFile { path }
    }
}

/// The root directory of the project on the server.
#[derive(Clone, Debug)]
pub struct ServerRoot {
    pub dir: RemoteDir,
}

/// The staging website directory, `website-stage`.
#[derive(Clone, Debug)]
pub struct Stage {
    pub dir: RemoteDir,
}

/// The production website directory, `website-prod`.
#[derive(Clone, Debug)]
pub struct Prod {
    pub dir: RemoteDir,
}

/// The server directory the TLS certificates are copied to, `certs`.
#[derive(Clone, Debug)]
pub struct Certs {
    pub dir: RemoteDir,
}

/// Where letsencrypt keeps the live certificates of the website's domain.
#[derive(Clone, Debug)]
pub struct LetsEncryptCertsDir {
    pub dir: RemoteDir,
}

impl ServerRoot {
    pub fn stage(&self) -> (r: Stage)
        ensures
            r.dir.path@ == joined(self.dir.path@, "website-stage"@),
    {
        proof {
            reveal_strlit("website-stage");
        }
        Stage { dir: self.dir.dir("website-stage") }
    }

    pub fn prod(&self) -> (r: Prod)
        ensures
            r.dir.path@ == joined(self.dir.path@, "website-prod"@),
    {
        proof {
            reveal_strlit("website-prod");
        }
        Prod { dir: self.dir.dir("website-prod") }
    }

    pub fn certs(&self) -> (r: Certs)
        ensures
            r.dir.path@ == joined(self.dir.path@, "certs"@),
    {
        proof {
            reveal_strlit("certs");
        }
        Certs { dir: self.dir.dir("certs") }
    }
}

/// The server binary and the site directory of a website root.
pub open spec fn server_binary_path(root: Seq<char>) -> Seq<char> {
    joined(root, "server"@)
}

pub open spec fn site_path(root: Seq<char>) -> Seq<char> {
    joined(root, "site"@)
}

fn server_binary_of(dir: &RemoteDir) -> (r: RemoteFile)
    ensures
        r.path@ == server_binary_path(dir.path@),
{
    proof {
        reveal_strlit("server");
    }
    dir.file("server")
}

fn site_of(dir: &RemoteDir) -> (r: RemoteDir)
    ensures
        r.path@ == site_path(dir.path@),
{
    proof {
        reveal_strlit("site");
    }
    dir.dir("site")
}

impl Stage {
    pub fn server_binary(&self) -> (r: RemoteFile)
        ensures
            r.path@ == server_binary_path(self.dir.path@),
    {
        server_binary_of(&self.dir)
    }

    pub fn site(&self) -> (r: RemoteDir)
        ensures
            r.path@ == site_path(self.dir.path@),
    {
        site_of(&self.dir)
    }
}

impl Prod {
    pub fn server_binary(&self) -> (r: RemoteFile)
        ensures
            r.path@ == server_binary_path(self.dir.path@),
    {
        server_binary_of(&self.dir)
    }

    pub fn site(&self) -> (r: RemoteDir)
        ensures
            r.path@ == site_path(self.dir.path@),
    {
        site_of(&self.dir)
    }
}

impl Certs {
    pub fn privkey(&self) -> (r: RemoteFile)
        ensures
            r.path@ == joined(self.dir.path@, "privkey.pem"@),
    {
        proof {
            reveal_strlit("privkey.pem");
        }
        self.dir.file("privkey.pem")
    }

    pub fn fullchain(&self) -> (r: RemoteFile)
        ensures
            r.path@ == joined(self.dir.path@, "fullchain.pem"@),
    {
        proof {
            reveal_strlit("fullchain.pem");
        }
        self.dir.file("fullchain.pem")
    }
}

impl LetsEncryptCertsDir {
    pub fn new() -> (r: LetsEncryptCertsDir)
        ensures
            r.dir.path@ == "/etc/letsencrypt/live/jordanyatesdirect.com"@,
    {
        LetsEncryptCertsDir {
            dir: RemoteDir::new_unchecked("/etc/letsencrypt/live/jordanyatesdirect.com".to_owned()),
        }
    }

    pub fn privkey(&self) -> (r: RemoteFile)
        ensures
            r.path@ == joined(self.dir.path@, "privkey.pem"@),
    {
        proof {
            reveal_strlit("privkey.pem");
        }
        self.dir.file("privkey.pem")
    }

    pub fn fullchain(&self) -> (r: RemoteFile)
        ensures
            r.path@ == joined(self.dir.path@, "fullchain.pem"@),
    {
        proof {
            reveal_strlit("fullchain.pem");
        }
        self.dir.file("fullchain.pem")
    }
}

/// The cargo target directory of the local checkout.
#[derive(Clone, Debug)]
pub struct Target {
    pub dir: String,
}

/// The output of a local build: its target directory and the profile directory
/// that holds the binaries.
#[derive(Clone, Debug)]
pub struct BuildOutput {
    pub target: Target,
    pub location: BinLocation,
}

impl BinLocation {
    pub open spec fn spec_dir_name(self) -> Seq<char> {
        match self {
            BinLocation::Debug => "debug"@,
            BinLocation::Release => "release"@,
        }
    }

    /// The name of the profile directory under the target directory.
    pub fn dir_name(self) -> (r: &'static str)
        ensures
            r@ == self.spec_dir_name(),
    {
        match self {
            BinLocation::Debug => {
                proof {
                    reveal_strlit("debug");
                }
                "debug"
            },
            BinLocation::Release => {
                proof {
                    reveal_strlit("release");
                }
                "release"
            },
        }
    }
}

impl Target {
    /// The build output of a build at `level` in this target directory.
    pub fn build_output(&self, level: ReleaseLevel) -> (r: BuildOutput)
        ensures
            r.target.dir@ == self.dir@,
            r.location == level.spec_bin_location(),
    {
        BuildOutput { target: Target { dir: self.dir.clone() }, location: level.bin_location() }
    }

    /// The `site` directory the website's assets are built into.
    pub fn site(&self) -> (r: String)
        ensures
            r@ == site_path(self.dir@),
    {
        proof {
            reveal_strlit("site");
        }
        camino_join(self.dir.as_str(), "site")
    }
}

impl ReleaseLevel {
    /// The build output of a build at this level in `target`.
    pub fn build_output(self, target: Target) -> (r: BuildOutput)
        ensures
            r.target.dir@ == target.dir@,
            r.location == self.spec_bin_location(),
    {
        BuildOutput { target, location: self.bin_location() }
    }
}

impl BuildOutput {
    /// The path of the built server binary, `<target>/<debug|release>/server`.
    pub fn server_binary(&self) -> (r: String)
        ensures
            r@ == joined(joined(self.target.dir@, self.location.spec_dir_name()), "server"@),
    {
        proof {
            reveal_strlit("server");
        }
        let profile = camino_join(self.target.dir.as_str(), self.location.dir_name());
        camino_join(profile.as_str(), "server")
    }

    /// The `site` directory of the build.
    pub fn site(&self) -> (r: String)
        ensures
            r@ == site_path(self.target.dir@),
    {
        self.target.site()
    }
}

} // verus!
