//! The command line handed to `cargo-leptos` to serve or build the website.

use vstd::prelude::*;
use crate::release::ReleaseLevel;

verus! {

/// The `cargo-leptos` subcommand.
#[derive(Clone, Copy, PartialEq, Eq, Structural, Debug)]
pub enum Cmd {
    Serve,
    Build,
}

impl Cmd {
    pub open spec fn spec_text(self) -> Seq<char> {
        match self {
            Cmd::Serve => "serve"@,
            Cmd::Build => "build"@,
        }
    }

    /// The subcommand's name, as it is written on the command line.
    pub fn to_text(&self) -> (r: String)
        ensures
            r@ == self.spec_text(),
    {
        match self {
            Cmd::Serve => "serve".to_owned(),
            Cmd::Build => "build".to_owned(),
        }
    }
}

/// The arguments of one `cargo-leptos` run.
#[derive(Debug)]
pub struct CargoLeptosArgs {
    pub release_level: ReleaseLevel,
    pub cmd: Cmd,
    /// The project's `Cargo.toml`, which the caller has found to exist.
    pub manifest_path: String,
    /// Passed on after the generated arguments.
    pub extra_args: Vec<String>,
}

/// The arguments that `into_args` produces for the given parts, in order.
pub open spec fn spec_leptos_args(
    level: ReleaseLevel,
    cmd: Cmd,
    manifest_path: Seq<char>,
    extra_args: Seq<Seq<char>>,
) -> Seq<Seq<char>> {
    seq![
        "cargo-leptos: library linked"@,
        "--manifest-path="@ + manifest_path,
        cmd.spec_text(),
        "-vv"@,
    ] + (if level.spec_is_release() {
        seq!["--release"@]
    } else {
        Seq::empty()
    }) + (if level.spec_should_precompress() {
        seq!["--precompress"@]
    } else {
        Seq::empty()
    }) + (if level.spec_prod_on_server() {
        seq!["--features=prod"@]
    } else {
        Seq::empty()
    }) + extra_args
}

/// The flags a build at `level` adds: one for each level it reaches, in the
/// order of the levels.
pub open spec fn level_flags(level: ReleaseLevel) -> Seq<Seq<char>> {
    seq!["--release"@, "--precompress"@, "--features=prod"@].take(level.rank() as int)
}

/// The command line is the fixed head, then one flag for each level the build
/// reaches, then the extra arguments; and a build at a higher level passes
/// every flag that a build at a lower level passes, in the same order.
pub proof fn lemma_leptos_args_flags(
    level: ReleaseLevel,
    higher: ReleaseLevel,
    cmd: Cmd,
    manifest_path: Seq<char>,
    extra_args: Seq<Seq<char>>,
)
    requires
        level.rank() <= higher.rank(),
    ensures
        spec_leptos_args(level, cmd, manifest_path, extra_args) == seq![
            "cargo-leptos: library linked"@,
            "--manifest-path="@ + manifest_path,
            cmd.spec_text(),
            "-vv"@,
        ] + level_flags(level) + extra_args,
        level_flags(higher).take(level_flags(level).len() as int) == level_flags(level),
{
    let all = seq!["--release"@, "--precompress"@, "--features=prod"@];
    let head = seq![
        "cargo-leptos: library linked"@,
        "--manifest-path="@ + manifest_path,
        cmd.spec_text(),
        "-vv"@,
    ];
    match level {
        ReleaseLevel::Dev => {
            assert(level_flags(level) =~= Seq::<Seq<char>>::empty());
        },
        ReleaseLevel::Release => {
            assert(level_flags(level) =~= seq!["--release"@]);
        },
        ReleaseLevel::PreCompress => {
            assert(level_flags(level) =~= seq!["--release"@, "--precompress"@]);
        },
        ReleaseLevel::ProdOnServer => {
            assert(level_flags(level) =~= all);
        },
    }
    assert(spec_leptos_args(level, cmd, manifest_path, extra_args) =~= head + level_flags(level)
        + extra_args);
    assert(level_flags(higher).take(level_flags(level).len() as int) =~= level_flags(level));
}

/// Appends the text of `s` to the texts of `v`.
fn push_text(v: &mut Vec<String>, s: &str)
    ensures
        final(v).deep_view() == old(v).deep_view().push(s@),
{
    let ghost before = v.deep_view();
    v.push(s.to_owned());
    assert(v.deep_view() =~= before.push(s@));
}

impl CargoLeptosArgs {
    /// `cargo leptos serve` at the default level.
    pub fn serve(manifest_path: String, extra_args: Vec<String>) -> (r: CargoLeptosArgs)
        ensures
            r.cmd == Cmd::Serve,
            r.release_level == ReleaseLevel::Dev,
            r.manifest_path@ == manifest_path@,
            r.extra_args.deep_view() == extra_args.deep_view(),
    {
        CargoLeptosArgs {
            manifest_path,
            cmd: Cmd::Serve,
            release_level: ReleaseLevel::default_level(),
            extra_args,
        }
    }

    /// `cargo leptos build` at the default level.
    pub fn build(manifest_path: String, extra_args: Vec<String>) -> (r: CargoLeptosArgs)
        ensures
            r.cmd == Cmd::Build,
            r.release_level == ReleaseLevel::Dev,
            r.manifest_path@ == manifest_path@,
            r.extra_args.deep_view() == extra_args.deep_view(),
    {
        CargoLeptosArgs {
            manifest_path,
            cmd: Cmd::Build,
            release_level: ReleaseLevel::default_level(),
            extra_args,
        }
    }

    /// The same arguments at another release level.
    pub fn with_release(self, level: ReleaseLevel) -> (r: CargoLeptosArgs)
        ensures
            r.release_level == level,
            r.cmd == self.cmd,
            r.manifest_path@ == self.manifest_path@,
            r.extra_args.deep_view() == self.extra_args.deep_view(),
    {
        let mut this = self;
        this.release_level = level;
        this
    }

    /// The name of the program these arguments are for.
    pub fn binary_name() -> (r: String)
        ensures
            r@ == "cargo-leptos"@,
    {
        "cargo-leptos".to_owned()
    }

    /// What to tell the user when the program is missing.
    pub fn installation_suggestion() -> (r: Option<String>)
        ensures
            r matches Some(s) && s@ == "This should be library linked, or `cargo install cargo-leptos`"@,
    {
        Some("This should be library linked, or `cargo install cargo-leptos`".to_owned())
    }

    /// Environment changes for the run: `CARGO` is removed.
    pub fn env_vars(&self) -> (r: Vec<(String, Option<String>)>)
        ensures
            r.len() == 1,
            r[0].0@ == "CARGO"@,
            r[0].1 is None,
    {
        let mut map: Vec<(String, Option<String>)> = Vec::new();
        map.push(("CARGO".to_owned(), None));
        map
    }

    /// The full command line: the program marker, the manifest, the subcommand,
    /// verbosity, one flag for each level reached, then the extra arguments.
    pub fn into_args(self) -> (r: Vec<String>)
        ensures
            r.deep_view() == spec_leptos_args(
                self.release_level,
                self.cmd,
                self.manifest_path@,
                self.extra_args.deep_view(),
            ),
    {
        let ghost extra = self.extra_args.deep_view();
        let mut ret: Vec<String> = Vec::new();
        push_text(&mut ret, "cargo-leptos: library linked");
        let mut manifest_flag = "--manifest-path=".to_owned();
        manifest_flag.append(self.manifest_path.as_str());
        push_text(&mut ret, manifest_flag.as_str());
        let cmd = self.cmd.to_text();
        push_text(&mut ret, cmd.as_str());
        push_text(&mut ret, "-vv");
        if self.release_level.is_release() {
            push_text(&mut ret, "--release");
        }
        if self.release_level.should_precompress() {
            push_text(&mut ret, "--precompress");
        }
        if self.release_level.prod_on_server() {
            push_text(&mut ret, "--features=prod");
        }
        let ghost head = ret.deep_view();
        let mut rest = self.extra_args;
        ret.append(&mut rest);
        assert(ret.deep_view() =~= head + extra);
        assert(ret.deep_view() =~= spec_leptos_args(
            self.release_level,
            self.cmd,
            self.manifest_path@,
            extra,
        ));
        ret
    }
}

/// The names of the secrets put into the environment of a build at `level`:
/// none below `ProdOnServer`; the live Stripe API key only in a `prod` build.
pub open spec fn spec_build_env_names(level: ReleaseLevel, prod_feature: bool) -> Seq<Seq<char>> {
    if level.spec_prod_on_server() {
        seq![
            "JYD_STRIPE_PUBLISH_KEY"@,
            "JYD_STRIPE_TEST_PUBLISH_KEY"@,
            "JYD_STRIPE_TEST_API_KEY"@,
            "JYD_DB_ROOT_PASS"@,
        ] + if prod_feature {
            seq!["JYD_STRIPE_API_KEY"@]
        } else {
            Seq::empty()
        }
    } else {
        Seq::empty()
    }
}

/// The environment variables a production build sets before it runs
/// `cargo-leptos`; their values are the project's secrets.
pub fn build_env_names(level: ReleaseLevel, prod_feature: bool) -> (r: Vec<String>)
    ensures
        r.deep_view() == spec_build_env_names(level, prod_feature),
{
    let mut names: Vec<String> = Vec::new();
    if level.include_env_vars() {
        push_text(&mut names, "JYD_STRIPE_PUBLISH_KEY");
        push_text(&mut names, "JYD_STRIPE_TEST_PUBLISH_KEY");
        push_text(&mut names, "JYD_STRIPE_TEST_API_KEY");
        push_text(&mut names, "JYD_DB_ROOT_PASS");
        if prod_feature {
            push_text(&mut names, "JYD_STRIPE_API_KEY");
        }
    }
    assert(names.deep_view() =~= spec_build_env_names(level, prod_feature));
    names
}

} // verus!
