//! The developer tool's commands: serving the website locally and publishing
//! it to the staging or production deployment.

use vstd::prelude::*;
use crate::cargo_leptos::{build_env_names, spec_build_env_names, spec_leptos_args, CargoLeptosArgs};
use crate::release::ReleaseLevel;

verus! {

/// What the tool is asked to do.
#[derive(Debug)]
pub enum Command {
    /// Build and serve the website locally; the arguments go to `cargo-leptos`.
    Serve { extra_args: Vec<String> },
    /// Publish to staging, or, with `prod`, copy staging to production.
    Publish { prod: bool },
}

/// The parsed command line.
#[derive(Debug)]
pub struct Cli {
    pub command: Command,
}

impl Cli {
    pub fn command(self) -> (r: Command)
        ensures
            r == self.command,
    {
        self.command
    }
}

/// One step of a command. The steps run in order, and the first failure ends the
/// command, as [`crate::steps::PlanRun`] decides.
#[derive(Debug)]
pub enum DeployStep {
    /// Set an environment variable of this process.
    SetEnv { key: String, value: String },
    /// Run `cargo-leptos` with these arguments, after putting the named secrets
    /// into the environment.
    CargoLeptos { args: CargoLeptosArgs, secret_env: Vec<String> },
    /// Open the ssh session to the server.
    OpenSsh,
    /// Open the server's task queue for the staging or the production website.
    OpenTaskQueue { prod: bool },
    /// Stop the website's task.
    KillTask,
    /// Copy the local build to the staging directory on the server.
    CopyBuildToStaging,
    /// Replace the production directory with the staging one on the server.
    CopyStageToProd,
    /// Restart the website's task after the given seconds.
    RestartTask { delay_secs: u64 },
}

/// The meaning of a step, by text.
pub enum DeployMeaning {
    SetEnv(Seq<char>, Seq<char>),
    CargoLeptos(Seq<Seq<char>>, Seq<Seq<char>>),
    OpenSsh,
    OpenTaskQueue(bool),
    KillTask,
    CopyBuildToStaging,
    CopyStageToProd,
    RestartTask(u64),
}

impl DeployStep {
    pub open spec fn meaning(&self) -> DeployMeaning {
        match self {
            DeployStep::SetEnv { key, value } => DeployMeaning::SetEnv(key@, value@),
            DeployStep::CargoLeptos { args, secret_env } => DeployMeaning::CargoLeptos(
                spec_leptos_args(
                    args.release_level,
                    args.cmd,
                    args.manifest_path@,
                    args.extra_args.deep_view(),
                ),
                secret_env.deep_view(),
            ),
            DeployStep::OpenSsh => DeployMeaning::OpenSsh,
            DeployStep::OpenTaskQueue { prod } => DeployMeaning::OpenTaskQueue(*prod),
            DeployStep::KillTask => DeployMeaning::KillTask,
            DeployStep::CopyBuildToStaging => DeployMeaning::CopyBuildToStaging,
            DeployStep::CopyStageToProd => DeployMeaning::CopyStageToProd,
            DeployStep::RestartTask { delay_secs } => DeployMeaning::RestartTask(*delay_secs),
        }
    }
}

pub open spec fn deploy_meanings(v: Seq<DeployStep>) -> Seq<DeployMeaning> {
    v.map_values(|s: DeployStep| s.meaning())
}

/// The steps of each command, for the project manifest `manifest_path`.
/// `prod_feature` tells whether this tool was built for production.
pub open spec fn spec_run(
    command: Command,
    manifest_path: Seq<char>,
    prod_feature: bool,
) -> Seq<DeployMeaning> {
    match command {
        Command::Serve { extra_args } => seq![
            DeployMeaning::SetEnv("JYD_DEV_SERVE"@, "pls"@),
            DeployMeaning::CargoLeptos(
                spec_leptos_args(
                    ReleaseLevel::Dev,
                    crate::cargo_leptos::Cmd::Serve,
                    manifest_path,
                    extra_args.deep_view(),
                ),
                Seq::empty(),
            ),
        ],
        Command::Publish { prod } => if !prod {
            seq![
                DeployMeaning::OpenSsh,
                DeployMeaning::OpenTaskQueue(false),
                DeployMeaning::CargoLeptos(
                    spec_leptos_args(
                        ReleaseLevel::ProdOnServer,
                        crate::cargo_leptos::Cmd::Build,
                        manifest_path,
                        Seq::empty(),
                    ),
                    spec_build_env_names(ReleaseLevel::ProdOnServer, prod_feature),
                ),
                DeployMeaning::KillTask,
                DeployMeaning::CopyBuildToStaging,
                DeployMeaning::RestartTask(1),
            ]
        } else {
            seq![
                DeployMeaning::OpenSsh,
                DeployMeaning::OpenTaskQueue(true),
                DeployMeaning::KillTask,
                DeployMeaning::CopyStageToProd,
                DeployMeaning::RestartTask(1),
            ]
        },
    }
}

/// A serve plan: the development flag is set, then `cargo-leptos serve` runs at
/// the development level on the manifest, with no secrets, and with the
/// caller's extra arguments passed on as they are.
pub open spec fn serve_passes_on(
    steps: Seq<DeployStep>,
    manifest_path: Seq<char>,
    extra_args: Seq<Seq<char>>,
) -> bool {
    &&& steps.len() == 2
    &&& steps[0] matches DeployStep::SetEnv { key, value }
    &&& steps[1] matches DeployStep::CargoLeptos { args, secret_env }
    &&& args.cmd == crate::cargo_leptos::Cmd::Serve
    &&& args.release_level == ReleaseLevel::Dev
    &&& args.manifest_path@ == manifest_path
    &&& args.extra_args.deep_view() == extra_args
    &&& secret_env@.len() == 0
}

/// A publish plan opens the ssh session and the task queue of the chosen
/// deployment; for staging it builds at the production-on-server level; then it
/// stops the website's task, copies (the local build to staging, or staging to
/// production), and ends by restarting the task after one second; no other step
/// restarts or stops it.
pub open spec fn publish_ends_with_restart(steps: Seq<DeployStep>, prod: bool) -> bool {
    let n = steps.len() as int;
    &&& n == if prod { 5int } else { 6int }
    &&& steps[0] is OpenSsh
    &&& steps[1] matches DeployStep::OpenTaskQueue { prod: p } && p == prod
    &&& !prod ==> (steps[2] matches DeployStep::CargoLeptos { args, .. }
        && args.cmd == crate::cargo_leptos::Cmd::Build
        && args.release_level == ReleaseLevel::ProdOnServer && args.extra_args@.len() == 0)
    &&& steps[n - 1] matches DeployStep::RestartTask { delay_secs } && delay_secs == 1
    &&& if prod {
        steps[n - 2] is CopyStageToProd
    } else {
        steps[n - 2] is CopyBuildToStaging
    }
    &&& steps[n - 3] is KillTask
    &&& forall|i: int| 0 <= i < n - 1 ==> !(#[trigger] steps[i] is RestartTask)
    &&& forall|i: int| 0 <= i < n ==> (#[trigger] steps[i] is KillTask) ==> i == n - 3
}

/// Serving passes the caller's extra arguments on to `cargo-leptos`: they are
/// the last arguments of its command line, unchanged, after `serve`.
pub proof fn lemma_serve_passes_extra_args(
    command: Command,
    manifest_path: Seq<char>,
    prod_feature: bool,
)
    requires
        command is Serve,
    ensures
        ({
            let plan = spec_run(command, manifest_path, prod_feature);
            let extra = command->Serve_extra_args.deep_view();
            &&& plan.len() == 2
            &&& plan[1] matches DeployMeaning::CargoLeptos(args, secrets)
            &&& secrets.len() == 0
            &&& args.len() == 4 + extra.len()
            &&& args[2] == "serve"@
            &&& args.skip(4) == extra
        }),
{
    let extra = command->Serve_extra_args.deep_view();
    let args = spec_leptos_args(
        ReleaseLevel::Dev,
        crate::cargo_leptos::Cmd::Serve,
        manifest_path,
        extra,
    );
    crate::cargo_leptos::lemma_leptos_args_flags(
        ReleaseLevel::Dev,
        ReleaseLevel::Dev,
        crate::cargo_leptos::Cmd::Serve,
        manifest_path,
        extra,
    );
    assert(crate::cargo_leptos::level_flags(ReleaseLevel::Dev) =~= Seq::<Seq<char>>::empty());
    assert(args.skip(4) =~= extra);
}

/// Publishing, to staging or to production, stops the website's task, copies,
/// and ends by restarting the task after one second, so the website is never
/// left stopped by a plan that runs to its end.
pub proof fn lemma_publish_ends_with_restart(
    command: Command,
    manifest_path: Seq<char>,
    prod_feature: bool,
)
    requires
        command is Publish,
    ensures
        ({
            let plan = spec_run(command, manifest_path, prod_feature);
            let n = plan.len() as int;
            &&& n >= 3
            &&& plan[n - 1] == DeployMeaning::RestartTask(1)
            &&& plan[n - 3] == DeployMeaning::KillTask
            &&& if command->Publish_prod {
                plan[n - 2] == DeployMeaning::CopyStageToProd
            } else {
                plan[n - 2] == DeployMeaning::CopyBuildToStaging
            }
            &&& forall|i: int| 0 <= i < n - 1 ==> !(#[trigger] plan[i] is RestartTask)
        }),
{
}

/// Plans a command: the steps to perform, in order.
pub fn run(cli: Cli, manifest_path: String, prod_feature: bool) -> (r: Vec<DeployStep>)
    ensures
        deploy_meanings(r@) == spec_run(cli.command, manifest_path@, prod_feature),
        cli.command matches Command::Serve { extra_args } ==> serve_passes_on(r@, manifest_path@, extra_args.deep_view()),
        cli.command matches Command::Publish { prod } ==> publish_ends_with_restart(r@, prod),
{
    let ghost command = cli.command;
    let ghost mp = manifest_path@;
    let mut steps: Vec<DeployStep> = Vec::new();
    match cli.command() {
        Command::Serve { extra_args } => {
            steps.push(DeployStep::SetEnv { key: "JYD_DEV_SERVE".to_owned(), value: "pls".to_owned() });
            let args = CargoLeptosArgs::serve(manifest_path, extra_args);
            let secret_env: Vec<String> = Vec::new();
            assert(secret_env.deep_view() =~= Seq::<Seq<char>>::empty());
            steps.push(DeployStep::CargoLeptos { args, secret_env });
        },
        Command::Publish { prod } => {
            steps.push(DeployStep::OpenSsh);
            steps.push(DeployStep::OpenTaskQueue { prod });
            if !prod {
                let no_args: Vec<String> = Vec::new();
                assert(no_args.deep_view() =~= Seq::<Seq<char>>::empty());
                let args = CargoLeptosArgs::build(manifest_path, no_args).with_release(
                    ReleaseLevel::ProdOnServer,
                );
                let secret_env = build_env_names(ReleaseLevel::ProdOnServer, prod_feature);
                steps.push(DeployStep::CargoLeptos { args, secret_env });
                steps.push(DeployStep::KillTask);
                steps.push(DeployStep::CopyBuildToStaging);
            } else {
                steps.push(DeployStep::KillTask);
                steps.push(DeployStep::CopyStageToProd);
            }
            steps.push(DeployStep::RestartTask { delay_secs: 1 });
        },
    }
    assert(deploy_meanings(steps@) =~= spec_run(command, mp, prod_feature));
    steps
}

} // verus!
