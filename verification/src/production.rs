//! The production database on the server: its settings and the steps of each
//! maintenance command.

use vstd::prelude::*;

verus! {

/// Joins texts with a separator between each two.
pub open spec fn joined_with(parts: Seq<Seq<char>>, sep: Seq<char>) -> Seq<char>
    decreases parts.len(),
{
    if parts.len() == 0 {
        Seq::empty()
    } else if parts.len() == 1 {
        parts[0]
    } else {
        joined_with(parts.drop_last(), sep) + sep + parts.last()
    }
}

/// Joins `parts` with `sep`, as `[String]::join` does.
pub fn join(parts: &Vec<String>, sep: &str) -> (r: String)
    ensures
        r@ == joined_with(parts.deep_view(), sep@),
{
    let mut r = String::new();
    let n = parts.len();
    let mut i: usize = 0;
    while i < n
        invariant
            n == parts.len(),
            i <= n,
            r@ == joined_with(parts.deep_view().take(i as int), sep@),
        decreases n - i,
    {
        if i != 0 {
            r.append(sep);
        }
        r.append(parts[i].as_str());
        assert(parts.deep_view().take(i + 1).drop_last() =~= parts.deep_view().take(i as int));
        i = i + 1;
    }
    assert(parts.deep_view().take(n as int) =~= parts.deep_view());
    r
}

/// How the database stores its data.
#[derive(Debug)]
pub enum StartDbType {
    File { data_path: String },
}

/// Where and how the production database runs.
#[derive(Debug)]
pub struct ProductionConfig {
    pub ssh_name: String,
    pub surreal_data_path: String,
    pub surreal_binary_path: String,
}

/// The maintenance commands.
#[derive(Clone, Copy, PartialEq, Eq, Structural, Debug)]
pub enum ProductionCommand {
    Kill,
    Clean,
    Start,
    Import,
    Connect,
}

/// One step of a maintenance command.
#[derive(Debug)]
pub enum ProductionStep {
    /// Open an ssh session to the named host; later steps run over it.
    OpenSsh { host: String },
    /// Run a program over the session and wait; a failed exit status fails the command.
    Run { program: String, args: Vec<String> },
    /// Start a program over the session, wait the given seconds, and leave it running.
    Spawn { program: String, args: Vec<String>, wait_secs: u64 },
    /// Connect to the database over a websocket.
    ConnectDb,
}

/// The meaning of a step, by text.
pub enum StepMeaning {
    OpenSsh(Seq<char>),
    Run(Seq<char>, Seq<Seq<char>>),
    Spawn(Seq<char>, Seq<Seq<char>>, u64),
    ConnectDb,
}

impl ProductionStep {
    pub open spec fn meaning(&self) -> StepMeaning {
        match self {
            ProductionStep::OpenSsh { host } => StepMeaning::OpenSsh(host@),
            ProductionStep::Run { program, args } => StepMeaning::Run(program@, args.deep_view()),
            ProductionStep::Spawn { program, args, wait_secs } => StepMeaning::Spawn(
                program@,
                args.deep_view(),
                *wait_secs,
            ),
            ProductionStep::ConnectDb => StepMeaning::ConnectDb,
        }
    }
}

pub open spec fn step_meanings(v: Seq<ProductionStep>) -> Seq<StepMeaning> {
    v.map_values(|s: ProductionStep| s.meaning())
}

/// The nushell line that kills every surreal process.
pub open spec fn kill_script() -> Seq<char> {
    "ps | find surreal | get pid | each {|pid| kill $pid; $pid }"@
}

/// The nushell line that lists the sockets surreal listens on.
pub open spec fn check_script() -> Seq<char> {
    "lsof -i -P -n | find surreal"@
}

/// The steps of each command. `start_args` are the database's start arguments.
pub open spec fn spec_plan(
    config: ProductionConfig,
    command: ProductionCommand,
    start_args: Seq<Seq<char>>,
) -> Seq<StepMeaning> {
    let ssh = StepMeaning::OpenSsh(config.ssh_name@);
    match command {
        ProductionCommand::Kill => seq![
            ssh,
            StepMeaning::Run("/root/.cargo/bin/nu"@, seq!["-c"@, kill_script()]),
        ],
        ProductionCommand::Clean => seq![
            ssh,
            StepMeaning::Run("rm"@, seq!["-rf"@, config.surreal_data_path@]),
        ],
        ProductionCommand::Start => seq![
            ssh,
            StepMeaning::Spawn(
                "nu"@,
                seq![
                    "-c"@,
                    config.surreal_binary_path@ + " start "@ + joined_with(start_args, " "@),
                ],
                2,
            ),
            StepMeaning::Run("nu"@, seq!["-c"@, check_script()]),
        ],
        ProductionCommand::Import => seq![StepMeaning::ConnectDb],
        ProductionCommand::Connect => Seq::empty(),
    }
}

/// Step `s` runs `program` with exactly `args`.
pub open spec fn runs(s: ProductionStep, program: Seq<char>, args: Seq<Seq<char>>) -> bool {
    s matches ProductionStep::Run { program: p, args: a } && p@ == program && a.deep_view() == args
}

/// Step `s` runs or starts a program with the arguments `args`.
pub open spec fn passes_args(s: ProductionStep, args: Seq<Seq<char>>) -> bool {
    ||| s matches ProductionStep::Run { args: a, .. } && a.deep_view() == args
    ||| s matches ProductionStep::Spawn { args: a, .. } && a.deep_view() == args
}

/// A kill plan: the ssh session to `host`, then the kill script, and nothing more.
pub open spec fn kill_only_kills(steps: Seq<ProductionStep>, host: Seq<char>) -> bool {
    &&& steps.len() == 2
    &&& steps[0] matches ProductionStep::OpenSsh { host: h } && h@ == host
    &&& runs(steps[1], "/root/.cargo/bin/nu"@, seq!["-c"@, kill_script()])
}

/// A start plan: the ssh session to `host`, the database started in the
/// background by `server_cmd`, then a last step that only lists surreal's
/// sockets; no step runs the kill script.
pub open spec fn start_then_checks(
    steps: Seq<ProductionStep>,
    host: Seq<char>,
    server_cmd: Seq<char>,
) -> bool {
    &&& steps.len() == 3
    &&& steps[0] matches ProductionStep::OpenSsh { host: h } && h@ == host
    &&& steps[1] matches ProductionStep::Spawn { program, args, wait_secs }
        && program@ == "nu"@ && args.deep_view() == seq!["-c"@, server_cmd] && wait_secs == 2
    &&& runs(steps[2], "nu"@, seq!["-c"@, check_script()])
    &&& forall|i: int| 0 <= i < 3 ==> !passes_args(#[trigger] steps[i], seq!["-c"@, kill_script()])
}

/// No step runs `rm`: the database's data stays where it is.
pub open spec fn keeps_data(steps: Seq<ProductionStep>) -> bool {
    forall|i: int| 0 <= i < steps.len() ==> !(#[trigger] steps[i] matches ProductionStep::Run { program, .. } && program@ == "rm"@)
}

/// The kill script and the check script are different lines.
proof fn lemma_scripts_differ()
    ensures
        kill_script() != check_script(),
        "rm"@ != "nu"@,
        "rm"@ != "/root/.cargo/bin/nu"@,
        forall|k: int| 0 <= k < kill_script().len() - 1 ==> !(#[trigger] kill_script()[k] == 's' && kill_script()[k + 1] == 't'),
{
    reveal_strlit("ps | find surreal | get pid | each {|pid| kill $pid; $pid }");
    reveal_strlit("lsof -i -P -n | find surreal");
    reveal_strlit("rm");
    reveal_strlit("nu");
    reveal_strlit("/root/.cargo/bin/nu");
    assert(kill_script().len() != check_script().len());
    assert forall|k: int| 0 <= k < kill_script().len() - 1 implies !(#[trigger] kill_script()[k] == 's' && kill_script()[k + 1] == 't') by {
        assert(0 <= k < kill_script().len() - 1);
    }
    assert("rm"@[0] != "nu"@[0]);
    assert("rm"@.len() != "/root/.cargo/bin/nu"@.len());
}

/// Killing the database runs the kill script over ssh and nothing else: it
/// removes no data. Only the clean command runs `rm`.
pub proof fn lemma_kill_keeps_data(
    config: ProductionConfig,
    command: ProductionCommand,
    start_args: Seq<Seq<char>>,
)
    ensures
        spec_plan(config, ProductionCommand::Kill, start_args) == seq![
            StepMeaning::OpenSsh(config.ssh_name@),
            StepMeaning::Run("/root/.cargo/bin/nu"@, seq!["-c"@, kill_script()]),
        ],
        command != ProductionCommand::Clean ==> forall|i: int|
            0 <= i < spec_plan(config, command, start_args).len() ==> !(#[trigger] spec_plan(
                config,
                command,
                start_args,
            )[i] matches StepMeaning::Run(program, _) && program == "rm"@),
{
    lemma_scripts_differ();
}

/// Starting the database never kills it: the plan starts surreal with the
/// given arguments and ends by listing its sockets, and no step runs the kill
/// script.
pub proof fn lemma_start_never_kills(config: ProductionConfig, start_args: Seq<Seq<char>>)
    ensures
        ({
            let plan = spec_plan(config, ProductionCommand::Start, start_args);
            &&& plan.len() == 3
            &&& plan[1] == StepMeaning::Spawn(
                "nu"@,
                seq!["-c"@, config.surreal_binary_path@ + " start "@ + joined_with(start_args, " "@)],
                2,
            )
            &&& plan[2] == StepMeaning::Run("nu"@, seq!["-c"@, check_script()])
            &&& forall|i: int| 0 <= i < plan.len() ==> !(#[trigger] plan[i] matches StepMeaning::Run(_, a) && a == seq!["-c"@, kill_script()])
        }),
{
    lemma_scripts_differ();
    let plan = spec_plan(config, ProductionCommand::Start, start_args);
    assert(seq!["-c"@, check_script()][1] != seq!["-c"@, kill_script()][1]);
}

fn texts2(a: &str, b: &str) -> (r: Vec<String>)
    ensures
        r.deep_view() == seq![a@, b@],
{
    let mut v: Vec<String> = Vec::new();
    v.push(a.to_owned());
    v.push(b.to_owned());
    assert(v.deep_view() =~= seq![a@, b@]);
    v
}

impl ProductionConfig {
    /// The configuration with the default data and binary paths on the server.
    pub fn with_defaults(ssh_name: String) -> (r: ProductionConfig)
        ensures
            r.ssh_name@ == ssh_name@,
            r.surreal_data_path@ == "/root/home/YMap/surreal.db"@,
            r.surreal_binary_path@ == "/usr/local/bin/surreal"@,
    {
        ProductionConfig {
            ssh_name,
            surreal_data_path: "/root/home/YMap/surreal.db".to_owned(),
            surreal_binary_path: "/usr/local/bin/surreal".to_owned(),
        }
    }

    pub fn primary_namespace(&self) -> (r: String)
        ensures
            r@ == "production"@,
    {
        "production".to_owned()
    }

    pub fn primary_database(&self) -> (r: String)
        ensures
            r@ == "production"@,
    {
        "production".to_owned()
    }

    /// The port the database listens on.
    pub fn bind_port(&self) -> (r: u16)
        ensures
            r == 42069,
    {
        42069
    }

    /// The database keeps its data in a file at the fixed default path.
    pub fn db_type(&self) -> (r: StartDbType)
        ensures
            r matches StartDbType::File { data_path } && data_path@ == "/root/home/YMap/surreal.db"@,
    {
        StartDbType::File { data_path: "/root/home/YMap/surreal.db".to_owned() }
    }

    pub fn connect_host(&self) -> (r: String)
        ensures
            r@ == "actually-happening.foundation"@,
    {
        "actually-happening.foundation".to_owned()
    }

    pub fn connect_port(&self) -> (r: u16)
        ensures
            r == 42069,
    {
        42069
    }

    /// The steps of `command`, in order; each must succeed before the next, as
    /// [`crate::steps::PlanRun`] decides.
    pub fn plan(&self, command: ProductionCommand, start_args: &Vec<String>) -> (r: Vec<ProductionStep>)
        ensures
            step_meanings(r@) == spec_plan(*self, command, start_args.deep_view()),
            command == ProductionCommand::Kill ==> kill_only_kills(r@, self.ssh_name@),
            command == ProductionCommand::Start ==> start_then_checks(
                r@,
                self.ssh_name@,
                self.surreal_binary_path@ + " start "@ + joined_with(start_args.deep_view(), " "@),
            ),
            command != ProductionCommand::Clean ==> keeps_data(r@),
            command == ProductionCommand::Clean ==> (r@.len() == 2 && r@[0] is OpenSsh && runs(
                r@[1],
                "rm"@,
                seq!["-rf"@, self.surreal_data_path@],
            )),
            command == ProductionCommand::Import ==> (r@.len() == 1 && r@[0] is ConnectDb),
            command == ProductionCommand::Connect ==> r@.len() == 0,
    {
        let mut steps: Vec<ProductionStep> = Vec::new();
        match command {
            ProductionCommand::Kill => {
                steps.push(ProductionStep::OpenSsh { host: self.ssh_name.clone() });
                steps.push(ProductionStep::Run {
                    program: "/root/.cargo/bin/nu".to_owned(),
                    args: texts2("-c", "ps | find surreal | get pid | each {|pid| kill $pid; $pid }"),
                });
            },
            ProductionCommand::Clean => {
                steps.push(ProductionStep::OpenSsh { host: self.ssh_name.clone() });
                steps.push(ProductionStep::Run {
                    program: "rm".to_owned(),
                    args: texts2("-rf", self.surreal_data_path.as_str()),
                });
            },
            ProductionCommand::Start => {
                let args = join(start_args, " ");
                let mut server_cmd = self.surreal_binary_path.clone();
                server_cmd.append(" start ");
                server_cmd.append(args.as_str());
                steps.push(ProductionStep::OpenSsh { host: self.ssh_name.clone() });
                steps.push(ProductionStep::Spawn {
                    program: "nu".to_owned(),
                    args: texts2("-c", server_cmd.as_str()),
                    wait_secs: 2,
                });
                steps.push(ProductionStep::Run {
                    program: "nu".to_owned(),
                    args: texts2("-c", "lsof -i -P -n | find surreal"),
                });
            },
            ProductionCommand::Import => {
                steps.push(ProductionStep::ConnectDb);
            },
            ProductionCommand::Connect => {},
        }
        assert(step_meanings(steps@) =~= spec_plan(*self, command, start_args.deep_view()));
        proof {
            lemma_scripts_differ();
            assert(seq!["-c"@, check_script()][1] != seq!["-c"@, kill_script()][1]);
            if command == ProductionCommand::Start {
                let server_cmd = self.surreal_binary_path@ + " start "@ + joined_with(start_args.deep_view(), " "@);
                assert(steps@[1].meaning() == spec_plan(*self, command, start_args.deep_view())[1]);
                assert(steps@[2].meaning() == spec_plan(*self, command, start_args.deep_view())[2]);
                assert(steps@[1] matches ProductionStep::Spawn { program, args, wait_secs }
                    && program@ == "nu"@ && args.deep_view() == seq!["-c"@, server_cmd] && wait_secs == 2);
                assert(runs(steps@[2], "nu"@, seq!["-c"@, check_script()]));
                assert forall|i: int| 0 <= i < 3 implies !passes_args(#[trigger] steps@[i], seq!["-c"@, kill_script()]) by {
                    assert(steps@[i].meaning() == spec_plan(*self, command, start_args.deep_view())[i]);
                    if i == 1 {
                        reveal_strlit(" start ");
                        let k: int = self.surreal_binary_path@.len() as int + 1;
                        assert(server_cmd[k] == 's' && server_cmd[k + 1] == 't');
                        if server_cmd == kill_script() {
                            assert(kill_script()[k] == 's' && kill_script()[k + 1] == 't');
                        }
                    }
                }
            }
        }
        steps
    }
}

/// A command run over ssh exited unsuccessfully; the text is its exit status.
#[derive(Debug)]
pub struct SshCommandFailed {
    pub status: String,
}

impl SshCommandFailed {
    /// The message the command fails with.
    pub fn message(&self) -> (r: String)
        ensures
            r@ == "Command through ssh connection failed: "@ + self.status@,
    {
        let mut r = "Command through ssh connection failed: ".to_owned();
        r.append(self.status.as_str());
        r
    }
}

/// The outcome of a command run over ssh: success, or the failure with its status.
pub fn check_exit(success: bool, status: String) -> (r: Result<(), SshCommandFailed>)
    ensures
        success ==> r is Ok,
        !success ==> (r matches Err(e) && e.status@ == status@),
{
    if !success {
        Err(SshCommandFailed { status })
    } else {
        Ok(())
    }
}

} // verus!
