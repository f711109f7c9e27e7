//! How the website's server binary is run, on the server and locally.

use vstd::prelude::*;
use crate::net::BindAddress;
use crate::paths::{
    joined, server_binary_path, site_path, BuildOutput, LetsEncryptCertsDir, RemoteFile,
    ServerRoot,
};

verus! {

/// The arguments common to every way of running the server binary.
#[derive(Debug)]
pub struct GenericBinaryArgs {
    /// If `None`, no certificates are handed over.
    pub env_certs_dir: Option<String>,
    pub site_root_dir: String,
    pub bind_addr: BindAddress,
}

/// The environment the server binary reads its settings from: `JYD_CERTS` when
/// there is a certificates directory, then `LEPTOS_SITE_ROOT` and `LEPTOS_SITE_ADDR`.
pub open spec fn spec_sourced_envs(
    certs: Option<Seq<char>>,
    site_root: Seq<char>,
    addr: BindAddress,
) -> Seq<(Seq<char>, Seq<char>)> {
    (match certs {
        Some(dir) => seq![("JYD_CERTS"@, dir)],
        None => Seq::empty(),
    }) + seq![("LEPTOS_SITE_ROOT"@, site_root), ("LEPTOS_SITE_ADDR"@, addr.spec_text())]
}

/// The texts of a list of string pairs.
pub open spec fn pair_texts(v: Seq<(String, String)>) -> Seq<(Seq<char>, Seq<char>)> {
    v.map_values(|p: (String, String)| (p.0@, p.1@))
}

fn opt_text(o: &Option<String>) -> (r: Option<String>)
    ensures
        match o {
            Some(s) => r matches Some(t) && t@ == s@,
            None => r is None,
        },
{
    match o {
        Some(s) => Some(s.clone()),
        None => None,
    }
}

impl GenericBinaryArgs {
    pub open spec fn spec_certs(&self) -> Option<Seq<char>> {
        match self.env_certs_dir {
            Some(s) => Some(s@),
            None => None,
        }
    }

    /// The environment variables the server binary is started with.
    pub fn sourced_envs(&self) -> (r: Vec<(String, String)>)
        ensures
            pair_texts(r@) == spec_sourced_envs(
                self.spec_certs(),
                self.site_root_dir@,
                self.bind_addr,
            ),
    {
        let mut map: Vec<(String, String)> = Vec::new();
        if let Some(env_certs_dir) = &self.env_certs_dir {
            map.push(("JYD_CERTS".to_owned(), env_certs_dir.clone()));
        }
        map.push(("LEPTOS_SITE_ROOT".to_owned(), self.site_root_dir.clone()));
        map.push(("LEPTOS_SITE_ADDR".to_owned(), self.bind_addr.to_text()));
        assert(pair_texts(map@) =~= spec_sourced_envs(
            self.spec_certs(),
            self.site_root_dir@,
            self.bind_addr,
        ));
        map
    }
}

/// The port the staging website listens on.
pub open spec fn stage_port() -> u16 {
    12369
}

/// The port the production website listens on.
pub open spec fn prod_port() -> u16 {
    443
}

/// Runs the server binary on the deployment server.
#[derive(Debug)]
pub struct RemoteBinaryRunner {
    pub server_binary: RemoteFile,
    pub args: GenericBinaryArgs,
}

/// The runner of the staging website.
#[derive(Debug)]
pub struct StageRunner(pub RemoteBinaryRunner);

/// The runner of the production website.
#[derive(Debug)]
pub struct ProdRunner(pub RemoteBinaryRunner);

/// Both deployments are labelled `website` in the task queue.
pub fn website_label() -> (r: &'static str)
    ensures
        r@ == "website"@,
{
    "website"
}

impl RemoteBinaryRunner {
    /// The runner as a deployment at `website_dir` listening on `port` has it:
    /// the letsencrypt certificates, the deployment's site and server binary.
    pub open spec fn spec_deployed(&self, website_dir: Seq<char>, port: u16) -> bool {
        &&& self.args.spec_certs() == Some("/etc/letsencrypt/live/jordanyatesdirect.com"@)
        &&& self.args.site_root_dir@ == site_path(website_dir)
        &&& self.args.bind_addr == BindAddress::spec_unspecified(port)
        &&& self.server_binary.path@ == server_binary_path(website_dir)
    }

    /// The staging deployment, listening on every interface on port 12369.
    pub fn staged(paths: &ServerRoot) -> (r: StageRunner)
        ensures
            r.0.spec_deployed(joined(paths.dir.path@, "website-stage"@), stage_port()),
    {
        let stage = paths.stage();
        StageRunner(RemoteBinaryRunner {
            args: GenericBinaryArgs {
                env_certs_dir: Some(LetsEncryptCertsDir::new().dir.path),
                site_root_dir: stage.site().path,
                bind_addr: BindAddress::unspecified(12369),
            },
            server_binary: stage.server_binary(),
        })
    }

    /// The production deployment, listening on every interface on port 443.
    pub fn prod(paths: &ServerRoot) -> (r: ProdRunner)
        ensures
            r.0.spec_deployed(joined(paths.dir.path@, "website-prod"@), prod_port()),
    {
        let prod = paths.prod();
        ProdRunner(RemoteBinaryRunner {
            args: GenericBinaryArgs {
                env_certs_dir: Some(LetsEncryptCertsDir::new().dir.path),
                site_root_dir: prod.site().path,
                bind_addr: BindAddress::unspecified(443),
            },
            server_binary: prod.server_binary(),
        })
    }

    /// The name of the program run.
    pub fn binary_name() -> (r: String)
        ensures
            r@ == "server"@,
    {
        "server".to_owned()
    }

    /// What to tell the user when the binary is missing on the server.
    pub fn installation_suggestion() -> (r: Option<String>)
        ensures
            r matches Some(s) && s@
                == "cargo x build --level prod-on-server; cargo x copy server --level prod-on-server"@,
    {
        Some(
            "cargo x build --level prod-on-server; cargo x copy server --level prod-on-server".to_owned(),
        )
    }

    /// The path of the binary on the server.
    pub fn binary_path(&self) -> (r: RemoteFile)
        ensures
            r.path@ == self.server_binary.path@,
    {
        RemoteFile { path: self.server_binary.path.clone() }
    }

    /// The environment the binary is started with.
    pub fn included_env_vars(&self) -> (r: Vec<(String, String)>)
        ensures
            pair_texts(r@) == spec_sourced_envs(
                self.args.spec_certs(),
                self.args.site_root_dir@,
                self.args.bind_addr,
            ),
    {
        self.args.sourced_envs()
    }

    /// The server binary takes no command line arguments.
    pub fn into_args(self) -> (r: Vec<String>)
        ensures
            r@.len() == 0,
    {
        Vec::new()
    }
}

/// Runs a locally built server binary.
#[derive(Debug)]
pub struct LocalBinaryRunner {
    pub server_binary: String,
    pub args: GenericBinaryArgs,
}

impl LocalBinaryRunner {
    /// Runs the server of the build `paths` on `socket`, without certificates.
    pub fn new(paths: &BuildOutput, socket: BindAddress) -> (r: LocalBinaryRunner)
        ensures
            r.args.env_certs_dir is None,
            r.args.site_root_dir@ == site_path(paths.target.dir@),
            r.args.bind_addr == socket,
            r.server_binary@ == joined(
                joined(paths.target.dir@, paths.location.spec_dir_name()),
                "server"@,
            ),
    {
        LocalBinaryRunner {
            args: GenericBinaryArgs {
                env_certs_dir: None,
                site_root_dir: paths.site(),
                bind_addr: socket,
            },
            server_binary: paths.server_binary(),
        }
    }

    /// The name of the program run.
    pub fn binary_name() -> (r: String)
        ensures
            r@ == "server"@,
    {
        "server".to_owned()
    }

    /// What to tell the user when the binary is missing.
    pub fn installation_suggestion() -> (r: Option<String>)
        ensures
            r matches Some(s) && s@ == "Build cargo-leptos, library internal"@,
    {
        Some("Build cargo-leptos, library internal".to_owned())
    }

    /// The environment the binary is started with.
    pub fn included_env_vars(&self) -> (r: Vec<(String, String)>)
        ensures
            pair_texts(r@) == spec_sourced_envs(
                self.args.spec_certs(),
                self.args.site_root_dir@,
                self.args.bind_addr,
            ),
    {
        self.args.sourced_envs()
    }

    /// The server binary takes no command line arguments.
    pub fn into_args(self) -> (r: Vec<String>)
        ensures
            r@.len() == 0,
    {
        Vec::new()
    }
}

/// The staging and the production deployments never share their website
/// directory, their site directory, their server binary or their port, so
/// replacing one never touches the other.
pub proof fn lemma_stage_prod_apart(root: Seq<char>)
    ensures
        joined(root, "website-stage"@) != joined(root, "website-prod"@),
        site_path(joined(root, "website-stage"@)) != site_path(joined(root, "website-prod"@)),
        server_binary_path(joined(root, "website-stage"@)) != server_binary_path(
            joined(root, "website-prod"@),
        ),
        stage_port() != prod_port(),
{
    reveal_strlit("website-stage");
    reveal_strlit("website-prod");
    reveal_strlit("site");
    reveal_strlit("server");
    let s = joined(root, "website-stage"@);
    let p = joined(root, "website-prod"@);
    assert(s.len() == p.len() + 1);
    assert(s.last() == 'e');
    assert(p.last() == 'd');
    assert(joined(s, "site"@).len() == joined(p, "site"@).len() + 1);
    assert(joined(s, "server"@).len() == joined(p, "server"@).len() + 1);
}

/// The environment handed to the server binary names each variable once, as
/// the map it stands for does.
pub proof fn lemma_sourced_env_keys_distinct(certs: Option<Seq<char>>, site_root: Seq<char>, addr: BindAddress)
    ensures
        forall|i: int, j: int|
            0 <= i < j < spec_sourced_envs(certs, site_root, addr).len() ==> #[trigger] spec_sourced_envs(
                certs,
                site_root,
                addr,
            )[i].0 != #[trigger] spec_sourced_envs(certs, site_root, addr)[j].0,
{
    reveal_strlit("JYD_CERTS");
    reveal_strlit("LEPTOS_SITE_ROOT");
    reveal_strlit("LEPTOS_SITE_ADDR");
    assert("JYD_CERTS"@.len() != "LEPTOS_SITE_ROOT"@.len());
    assert("JYD_CERTS"@.len() != "LEPTOS_SITE_ADDR"@.len());
    assert("LEPTOS_SITE_ROOT"@[12] != "LEPTOS_SITE_ADDR"@[12]);
}

} // verus!
