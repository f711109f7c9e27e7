use ymap::steps::{PlanOutcome, PlanRun};
use ymap::cargo_leptos::{build_env_names, CargoLeptosArgs, Cmd};
use ymap::deploy::{run, Cli, Command, DeployStep};
use ymap::net::{to_decimal, BindAddress};
use ymap::paths::{BuildOutput, LetsEncryptCertsDir, RemoteDir, ServerRoot, Target};
use ymap::production::{check_exit, join, ProductionCommand, ProductionConfig, ProductionStep, StartDbType};
use ymap::release::{BinLocation, ReleaseLevel};
use ymap::runner::{website_label, GenericBinaryArgs, LocalBinaryRunner, RemoteBinaryRunner};
use ymap::server_commands::{
    copy_certs, copy_leptos_build_to_staging, copy_stage_to_prod, CpArgs, PublishedToStageKey, RmRfArgs,
};

fn texts(v: &[&str]) -> Vec<String> {
    v.iter().map(|s| s.to_string()).collect()
}

fn root() -> ServerRoot {
    ServerRoot { dir: RemoteDir::new_unchecked("/root/home/YMap".to_string()) }
}

#[test]
fn release_levels_imply_lower_levels() {
    let levels = [ReleaseLevel::Dev, ReleaseLevel::Release, ReleaseLevel::PreCompress, ReleaseLevel::ProdOnServer];
    let expected = [(false, false, false), (true, false, false), (true, true, false), (true, true, true)];
    for (level, (release, precompress, prod)) in levels.iter().zip(expected.iter()) {
        assert_eq!(level.is_release(), *release);
        assert_eq!(level.should_precompress(), *precompress);
        assert_eq!(level.prod_on_server(), *prod);
        assert_eq!(level.include_env_vars(), *prod);
        assert_eq!(level.bin_location() == BinLocation::Release, level.is_release());
    }
    assert_eq!(ReleaseLevel::default_level(), ReleaseLevel::Dev);
}

#[test]
fn decimal_and_bind_address() {
    assert_eq!(to_decimal(0), "0");
    assert_eq!(to_decimal(7), "7");
    assert_eq!(to_decimal(12369), "12369");
    assert_eq!(to_decimal(4294967295), "4294967295");
    assert_eq!(BindAddress::unspecified(443).to_text(), "0.0.0.0:443");
    let addr = BindAddress { a: 127, b: 0, c: 0, d: 1, port: 3000 };
    assert_eq!(addr.to_text(), "127.0.0.1:3000");
}

#[test]
fn serve_args_at_dev_level() {
    let args = CargoLeptosArgs::serve("/p/Cargo.toml".to_string(), texts(&["--hot-reload"]));
    assert_eq!(args.cmd, Cmd::Serve);
    assert_eq!(
        args.into_args(),
        texts(&["cargo-leptos: library linked", "--manifest-path=/p/Cargo.toml", "serve", "-vv", "--hot-reload"])
    );
}

#[test]
fn build_args_gain_one_flag_per_level() {
    let expected_flags: [&[&str]; 4] = [
        &[],
        &["--release"],
        &["--release", "--precompress"],
        &["--release", "--precompress", "--features=prod"],
    ];
    let levels = [ReleaseLevel::Dev, ReleaseLevel::Release, ReleaseLevel::PreCompress, ReleaseLevel::ProdOnServer];
    for (level, flags) in levels.iter().zip(expected_flags.iter()) {
        let args = CargoLeptosArgs::build("m".to_string(), texts(&["x"])).with_release(*level);
        let mut expected = texts(&["cargo-leptos: library linked", "--manifest-path=m", "build", "-vv"]);
        expected.extend(texts(flags));
        expected.push("x".to_string());
        assert_eq!(args.into_args(), expected);
    }
}

#[test]
fn cargo_leptos_program_and_env() {
    assert_eq!(CargoLeptosArgs::binary_name(), "cargo-leptos");
    assert_eq!(
        CargoLeptosArgs::installation_suggestion(),
        Some("This should be library linked, or `cargo install cargo-leptos`".to_string())
    );
    let args = CargoLeptosArgs::serve("m".to_string(), vec![]);
    assert_eq!(args.env_vars(), vec![("CARGO".to_string(), None)]);
    assert_eq!(Cmd::Build.to_text(), "build");
}

#[test]
fn production_secrets_only_for_production_builds() {
    assert!(build_env_names(ReleaseLevel::PreCompress, true).is_empty());
    assert_eq!(
        build_env_names(ReleaseLevel::ProdOnServer, false),
        texts(&["JYD_STRIPE_PUBLISH_KEY", "JYD_STRIPE_TEST_PUBLISH_KEY", "JYD_STRIPE_TEST_API_KEY", "JYD_DB_ROOT_PASS"])
    );
    assert_eq!(build_env_names(ReleaseLevel::ProdOnServer, true).last().unwrap(), "JYD_STRIPE_API_KEY");
}

#[test]
fn server_paths() {
    let root = root();
    assert_eq!(root.stage().dir.path, "/root/home/YMap/website-stage");
    assert_eq!(root.prod().dir.path, "/root/home/YMap/website-prod");
    assert_eq!(root.stage().site().path, "/root/home/YMap/website-stage/site");
    assert_eq!(root.prod().server_binary().path, "/root/home/YMap/website-prod/server");
    assert_eq!(root.certs().fullchain().path, "/root/home/YMap/certs/fullchain.pem");
    let dir = RemoteDir::new_unchecked("/srv".to_string());
    assert_eq!(dir.dir("/etc/certs").path, "/etc/certs");
    assert_eq!(dir.file("a.pem").path, "/srv/a.pem");
    let slashed = ServerRoot { dir: RemoteDir::new_unchecked("/srv/".to_string()) };
    assert_eq!(slashed.stage().dir.path, "/srv/website-stage");
    assert_eq!(
        LetsEncryptCertsDir::new().privkey().path,
        "/etc/letsencrypt/live/jordanyatesdirect.com/privkey.pem"
    );
}

#[test]
fn local_build_paths() {
    let target = Target { dir: "/w/target".to_string() };
    let dev: BuildOutput = target.build_output(ReleaseLevel::Dev);
    assert_eq!(dev.server_binary(), "/w/target/debug/server");
    assert_eq!(dev.site(), "/w/target/site");
    let prod = ReleaseLevel::ProdOnServer.build_output(target.clone());
    assert_eq!(prod.server_binary(), "/w/target/release/server");
    assert_eq!(BinLocation::Release.dir_name(), "release");
}

#[test]
fn stage_and_prod_runners_are_apart() {
    let root = root();
    let stage = RemoteBinaryRunner::staged(&root).0;
    let prod = RemoteBinaryRunner::prod(&root).0;
    assert_eq!(stage.args.bind_addr.port, 12369);
    assert_eq!(prod.args.bind_addr.port, 443);
    assert_ne!(stage.args.site_root_dir, prod.args.site_root_dir);
    assert_ne!(stage.server_binary.path, prod.server_binary.path);
    assert_eq!(stage.binary_path().path, "/root/home/YMap/website-stage/server");
    assert_eq!(
        prod.included_env_vars(),
        vec![
            ("JYD_CERTS".to_string(), "/etc/letsencrypt/live/jordanyatesdirect.com".to_string()),
            ("LEPTOS_SITE_ROOT".to_string(), "/root/home/YMap/website-prod/site".to_string()),
            ("LEPTOS_SITE_ADDR".to_string(), "0.0.0.0:443".to_string()),
        ]
    );
    assert!(prod.into_args().is_empty());
    assert_eq!(website_label(), "website");
}

#[test]
fn local_runner_has_no_certs() {
    let build = Target { dir: "t".to_string() }.build_output(ReleaseLevel::Release);
    let runner = LocalBinaryRunner::new(&build, BindAddress { a: 127, b: 0, c: 0, d: 1, port: 8080 });
    assert_eq!(runner.server_binary, "t/release/server");
    assert_eq!(
        runner.included_env_vars(),
        vec![
            ("LEPTOS_SITE_ROOT".to_string(), "t/site".to_string()),
            ("LEPTOS_SITE_ADDR".to_string(), "127.0.0.1:8080".to_string()),
        ]
    );
    let args = GenericBinaryArgs {
        env_certs_dir: Some("c".to_string()),
        site_root_dir: "s".to_string(),
        bind_addr: BindAddress::unspecified(1),
    };
    assert_eq!(args.sourced_envs()[0], ("JYD_CERTS".to_string(), "c".to_string()));
}

#[test]
fn stage_is_copied_over_prod() {
    let root = root();
    let cmds = copy_stage_to_prod(&root.stage(), &root.prod(), PublishedToStageKey::assume_already_staged());
    assert_eq!(cmds.len(), 2);
    assert_eq!(cmds[0].program, "/usr/bin/rm");
    assert_eq!(cmds[0].args, texts(&["-rf", "/root/home/YMap/website-prod"]));
    assert_eq!(cmds[1].program, "/usr/bin/cp");
    assert_eq!(
        cmds[1].args,
        texts(&["-f", "-R", "/root/home/YMap/website-stage", "/root/home/YMap/website-prod"])
    );
    let rm = RmRfArgs { path: RemoteDir::new_unchecked("/x".to_string()) };
    assert_eq!(rm.binary_path(), "/usr/bin/rm");
    let cp = CpArgs { from: RemoteDir::new_unchecked("/a".to_string()), to: RemoteDir::new_unchecked("/b".to_string()) };
    assert_eq!(cp.into_args(), texts(&["-f", "-R", "/a", "/b"]));
}

#[test]
fn certs_and_build_copies() {
    let root = root();
    let certs = copy_certs(&root);
    assert_eq!(certs[0].from, "/etc/letsencrypt/live/jordanyatesdirect.com/privkey.pem");
    assert_eq!(certs[0].to, "/root/home/YMap/certs/privkey.pem");
    assert_eq!(certs[1].to, "/root/home/YMap/certs/fullchain.pem");
    let build = Target { dir: "/w/target".to_string() }.build_output(ReleaseLevel::ProdOnServer);
    let err = copy_leptos_build_to_staging(&root, &build, false).unwrap_err();
    assert!(matches!(&err, ymap::server_commands::StagingError::BinarySize { path } if path == "/w/target/release/server"));
    assert_eq!(err.message(), "Couldn't get size of server binary");
    let copies = copy_leptos_build_to_staging(&root, &build, true).unwrap();
    assert_eq!(copies[0].from, "/w/target/site");
    assert_eq!(copies[0].to, "/root/home/YMap/website-stage");
    assert_eq!(copies[1].from, "/w/target/release/server");
    assert_eq!(copies[1].to, "/root/home/YMap/website-stage/server");
}

#[test]
fn show_runs_dev_serve() {
    let steps = run(Cli { command: Command::Serve { extra_args: texts(&["a"]) } }, "m".to_string(), false);
    assert_eq!(steps.len(), 2);
    match &steps[0] {
        DeployStep::SetEnv { key, value } => {
            assert_eq!(key, "JYD_DEV_SERVE");
            assert_eq!(value, "pls");
        }
        other => panic!("unexpected step {:?}", other),
    }
    match &steps[1] {
        DeployStep::CargoLeptos { args, secret_env } => {
            assert_eq!(args.release_level, ReleaseLevel::Dev);
            assert_eq!(args.cmd, Cmd::Serve);
            assert!(secret_env.is_empty());
        }
        other => panic!("unexpected step {:?}", other),
    }
}

#[test]
fn publish_to_staging_builds_and_copies() {
    let steps = run(Cli { command: Command::Publish { prod: false } }, "m".to_string(), true);
    assert_eq!(steps.len(), 6);
    assert!(matches!(steps[0], DeployStep::OpenSsh));
    assert!(matches!(steps[1], DeployStep::OpenTaskQueue { prod: false }));
    match &steps[2] {
        DeployStep::CargoLeptos { args, secret_env } => {
            assert_eq!(args.release_level, ReleaseLevel::ProdOnServer);
            assert_eq!(args.cmd, Cmd::Build);
            assert_eq!(secret_env.len(), 5);
        }
        other => panic!("unexpected step {:?}", other),
    }
    assert!(matches!(steps[3], DeployStep::KillTask));
    assert!(matches!(steps[4], DeployStep::CopyBuildToStaging));
    assert!(matches!(steps[5], DeployStep::RestartTask { delay_secs: 1 }));
}

#[test]
fn publish_to_prod_copies_stage() {
    let steps = run(Cli { command: Command::Publish { prod: true } }, "m".to_string(), false);
    assert_eq!(steps.len(), 5);
    assert!(matches!(steps[1], DeployStep::OpenTaskQueue { prod: true }));
    assert!(matches!(steps[2], DeployStep::KillTask));
    assert!(matches!(steps[3], DeployStep::CopyStageToProd));
}

#[test]
fn production_plans() {
    let config = ProductionConfig::with_defaults("ymap-server".to_string());
    assert_eq!(config.primary_namespace(), "production");
    assert_eq!(config.bind_port(), 42069);
    assert_eq!(config.connect_host(), "actually-happening.foundation");
    assert!(matches!(config.db_type(), StartDbType::File { data_path } if data_path == "/root/home/YMap/surreal.db"));
    let kill = config.plan(ProductionCommand::Kill, &vec![]);
    assert!(matches!(&kill[0], ProductionStep::OpenSsh { host } if host == "ymap-server"));
    assert!(matches!(&kill[1], ProductionStep::Run { program, args }
        if program == "/root/.cargo/bin/nu" && args[1] == "ps | find surreal | get pid | each {|pid| kill $pid; $pid }"));
    let start = config.plan(ProductionCommand::Start, &texts(&["--bind", "0.0.0.0:42069"]));
    assert_eq!(start.len(), 3);
    assert!(matches!(&start[1], ProductionStep::Spawn { program, args, wait_secs: 2 }
        if program == "nu" && args[1] == "/usr/local/bin/surreal start --bind 0.0.0.0:42069"));
    let clean = config.plan(ProductionCommand::Clean, &vec![]);
    assert!(matches!(&clean[1], ProductionStep::Run { args, .. } if args == &texts(&["-rf", "/root/home/YMap/surreal.db"])));
    assert!(matches!(config.plan(ProductionCommand::Import, &vec![])[0], ProductionStep::ConnectDb));
}

#[test]
fn join_and_exit_status() {
    assert_eq!(join(&texts(&["a", "b", "c"]), ", "), "a, b, c");
    assert_eq!(join(&vec![], "-"), "");
    assert!(check_exit(true, "exit status: 0".to_string()).is_ok());
    let failed = check_exit(false, "exit status: 1".to_string()).unwrap_err();
    assert_eq!(failed.status, "exit status: 1");
    assert_eq!(failed.message(), "Command through ssh connection failed: exit status: 1");
}

#[test]
fn the_first_failing_step_ends_the_plan() {
    let steps = run(Cli { command: Command::Publish { prod: true } }, "m".to_string(), false);
    let mut plan = PlanRun::new(steps.len());
    let mut ran = vec![];
    while let Some(i) = plan.next() {
        ran.push(i);
        // the kill (step 2) fails
        plan.record(i != 2);
    }
    assert_eq!(ran, vec![0, 1, 2]);
    assert_eq!(plan.outcome(), PlanOutcome::FailedAt(2));
    assert!(matches!(steps[2], DeployStep::KillTask));

    let mut plan = PlanRun::new(3);
    while plan.next().is_some() {
        plan.record(true);
    }
    assert_eq!(plan.done, 3);
    assert_eq!(plan.outcome(), PlanOutcome::Succeeded);
    assert_eq!(PlanRun::new(0).outcome(), PlanOutcome::Succeeded);
}
