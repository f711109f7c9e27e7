//! Commands that move builds and certificates around on the deployment server.

use vstd::prelude::*;
use crate::paths::{joined, server_binary_path, site_path, BuildOutput, Certs, LetsEncryptCertsDir, Prod, RemoteDir, Stage, ServerRoot};

verus! {

/// Represents that the staging deployment is up to date.
#[derive(Debug)]
pub struct PublishedToStageKey {
    unit: (),
}

impl PublishedToStageKey {
    /// Taken on the user's word: the stage has already been published.
    pub fn assume_already_staged() -> PublishedToStageKey {
        PublishedToStageKey { unit: () }
    }
}

/// A program run on the server by absolute path, with its arguments.
#[derive(Debug)]
pub struct RemoteCommand {
    pub program: String,
    pub args: Vec<String>,
}

impl RemoteCommand {
    pub open spec fn spec_text(&self) -> (Seq<char>, Seq<Seq<char>>) {
        (self.program@, self.args.deep_view())
    }
}

/// `rm -rf path`.
#[derive(Debug)]
pub struct RmRfArgs {
    pub path: RemoteDir,
}

/// `cp -f -R from to`.
#[derive(Debug)]
pub struct CpArgs {
    pub from: RemoteDir,
    pub to: RemoteDir,
}

impl RmRfArgs {
    pub fn binary_name() -> (r: String)
        ensures
            r@ == "rm"@,
    {
        "rm".to_owned()
    }

    /// The binary by absolute path, so that no shell builtin is used.
    pub fn binary_path(&self) -> (r: String)
        ensures
            r@ == "/usr/bin/rm"@,
    {
        "/usr/bin/rm".to_owned()
    }

    pub fn into_args(self) -> (r: Vec<String>)
        ensures
            r.deep_view() == seq!["-rf"@, self.path.path@],
    {
        let mut v: Vec<String> = Vec::new();
        v.push("-rf".to_owned());
        v.push(self.path.path);
        assert(v.deep_view() =~= seq!["-rf"@, self.path.path@]);
        v
    }
}

impl CpArgs {
    pub fn binary_name() -> (r: String)
        ensures
            r@ == "cp"@,
    {
        "cp".to_owned()
    }

    /// The binary by absolute path, so that no shell builtin is used.
    pub fn binary_path(&self) -> (r: String)
        ensures
            r@ == "/usr/bin/cp"@,
    {
        "/usr/bin/cp".to_owned()
    }

    pub fn into_args(self) -> (r: Vec<String>)
        ensures
            r.deep_view() == seq!["-f"@, "-R"@, self.from.path@, self.to.path@],
    {
        let mut v: Vec<String> = Vec::new();
        v.push("-f".to_owned());
        v.push("-R".to_owned());
        v.push(self.from.path);
        v.push(self.to.path);
        assert(v.deep_view() =~= seq!["-f"@, "-R"@, self.from.path@, self.to.path@]);
        v
    }
}

/// The commands, in order, that replace the production website with the staged one:
/// remove the production directory, then copy the staging directory in its place.
pub open spec fn spec_stage_to_prod(stage: Seq<char>, prod: Seq<char>) -> Seq<(Seq<char>, Seq<Seq<char>>)> {
    seq![
        ("/usr/bin/rm"@, seq!["-rf"@, prod]),
        ("/usr/bin/cp"@, seq!["-f"@, "-R"@, stage, prod]),
    ]
}

/// Publishing staging to production removes only the production directory, and
/// only before the copy: every removal's path is the production directory, so
/// the staging directory, where it is not the production one, is never removed,
/// and the last command copies it into production.
pub proof fn lemma_stage_to_prod_keeps_stage(stage: Seq<char>, prod: Seq<char>)
    requires
        stage != prod,
    ensures
        ({
            let cmds = spec_stage_to_prod(stage, prod);
            &&& forall|i: int| 0 <= i < cmds.len() && (#[trigger] cmds[i]).0 == "/usr/bin/rm"@ ==> cmds[i].1 == seq!["-rf"@, prod]
            &&& forall|i: int| 0 <= i < cmds.len() && (#[trigger] cmds[i]).0 == "/usr/bin/rm"@ ==> cmds[i].1.last() != stage
            &&& cmds.last() == ("/usr/bin/cp"@, seq!["-f"@, "-R"@, stage, prod])
        }),
{
    reveal_strlit("/usr/bin/rm");
    reveal_strlit("/usr/bin/cp");
    assert("/usr/bin/rm"@[9] != "/usr/bin/cp"@[9]);
}

pub open spec fn command_texts(v: Seq<RemoteCommand>) -> Seq<(Seq<char>, Seq<Seq<char>>)> {
    v.map_values(|c: RemoteCommand| c.spec_text())
}

/// Copies the staged website over the production one; the key shows that the
/// stage was published first. The commands are run in order and stop at the first failure,
/// as [`crate::steps::PlanRun`] decides, so a failed `rm` stops the `cp`.
pub fn copy_stage_to_prod(stage: &Stage, prod: &Prod, _key: PublishedToStageKey) -> (r: Vec<RemoteCommand>)
    ensures
        command_texts(r@) == spec_stage_to_prod(stage.dir.path@, prod.dir.path@),
        r@.len() == 2,
        r@[0].program@ == "/usr/bin/rm"@,
        r@[0].args.deep_view() == seq!["-rf"@, prod.dir.path@],
        r@[1].program@ == "/usr/bin/cp"@,
        r@[1].args.deep_view() == seq!["-f"@, "-R"@, stage.dir.path@, prod.dir.path@],
{
    let rm = RmRfArgs { path: RemoteDir { path: prod.dir.path.clone() } };
    let cp = CpArgs {
        from: RemoteDir { path: stage.dir.path.clone() },
        to: RemoteDir { path: prod.dir.path.clone() },
    };
    let rm_cmd = RemoteCommand { program: rm.binary_path(), args: rm.into_args() };
    let cp_cmd = RemoteCommand { program: cp.binary_path(), args: cp.into_args() };
    let mut v: Vec<RemoteCommand> = Vec::new();
    v.push(rm_cmd);
    v.push(cp_cmd);
    assert(command_texts(v@) =~= spec_stage_to_prod(stage.dir.path@, prod.dir.path@));
    v
}

/// A copy from one path to another.
#[derive(Debug)]
pub struct CopyPair {
    pub from: String,
    pub to: String,
}

pub open spec fn copy_texts(v: Seq<CopyPair>) -> Seq<(Seq<char>, Seq<char>)> {
    v.map_values(|c: CopyPair| (c.from@, c.to@))
}

/// The server-side copies that install the letsencrypt certificates into the
/// project's `certs` directory: the private key, then the full chain. They run
/// as [`crate::steps::PlanRun`] decides, so a failed first copy stops the second.
pub fn copy_certs(root: &ServerRoot) -> (r: Vec<CopyPair>)
    ensures
        copy_texts(r@) == seq![
            (
                joined("/etc/letsencrypt/live/jordanyatesdirect.com"@, "privkey.pem"@),
                joined(joined(root.dir.path@, "certs"@), "privkey.pem"@),
            ),
            (
                joined("/etc/letsencrypt/live/jordanyatesdirect.com"@, "fullchain.pem"@),
                joined(joined(root.dir.path@, "certs"@), "fullchain.pem"@),
            ),
        ],
{
    let letsencrypt = LetsEncryptCertsDir::new();
    let certs: Certs = root.certs();
    let mut v: Vec<CopyPair> = Vec::new();
    v.push(CopyPair { from: letsencrypt.privkey().path, to: certs.privkey().path });
    v.push(CopyPair { from: letsencrypt.fullchain().path, to: certs.fullchain().path });
    assert(copy_texts(v@) =~= seq![
        (
            joined("/etc/letsencrypt/live/jordanyatesdirect.com"@, "privkey.pem"@),
            joined(joined(root.dir.path@, "certs"@), "privkey.pem"@),
        ),
        (
            joined("/etc/letsencrypt/live/jordanyatesdirect.com"@, "fullchain.pem"@),
            joined(joined(root.dir.path@, "certs"@), "fullchain.pem"@),
        ),
    ]);
    v
}

/// Why the local build could not be put on the staging deployment.
#[derive(Debug)]
pub enum StagingError {
    /// The server binary's size on disk could not be read; the path is kept.
    BinarySize { path: String },
}

impl StagingError {
    pub fn message(&self) -> (r: String)
        ensures
            r@ == "Couldn't get size of server binary"@,
    {
        "Couldn't get size of server binary".to_owned()
    }
}

/// The rsync transfers, local to server, that put a local build on the staging
/// deployment: the site directory into the stage directory, then the server
/// binary. `binary_size_known` tells whether the built server binary's size on
/// disk could be read; when it could not, nothing is transferred.
pub fn copy_leptos_build_to_staging(root: &ServerRoot, build: &BuildOutput, binary_size_known: bool) -> (r: Result<
    Vec<CopyPair>,
    StagingError,
>)
    ensures
        !binary_size_known ==> (r matches Err(StagingError::BinarySize { path }) && path@ == joined(
            joined(build.target.dir@, build.location.spec_dir_name()),
            "server"@,
        )),
        binary_size_known ==> (r matches Ok(v) && copy_texts(v@) == seq![
            (site_path(build.target.dir@), joined(root.dir.path@, "website-stage"@)),
            (
                joined(joined(build.target.dir@, build.location.spec_dir_name()), "server"@),
                server_binary_path(joined(root.dir.path@, "website-stage"@)),
            ),
        ]),
{
    if !binary_size_known {
        return Err(StagingError::BinarySize { path: build.server_binary() });
    }
    let stage = root.stage();
    let mut v: Vec<CopyPair> = Vec::new();
    v.push(CopyPair { from: build.site(), to: stage.dir.path.clone() });
    v.push(CopyPair { from: build.server_binary(), to: stage.server_binary().path });
    assert(copy_texts(v@) =~= seq![
        (site_path(build.target.dir@), joined(root.dir.path@, "website-stage"@)),
        (
            joined(joined(build.target.dir@, build.location.spec_dir_name()), "server"@),
            server_binary_path(joined(root.dir.path@, "website-stage"@)),
        ),
    ]);
    Ok(v)
}

} // verus!
