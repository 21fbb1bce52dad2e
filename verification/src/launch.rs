//! How the bundled server is started: where it lives below the resource
//! directory, which runtime runs it, and the command line, working directory
//! and environment it is given.
//!
//! Paths are kept as lists of segments below the resource directory that the
//! host resolves; the host joins them with its own path type.

use vstd::prelude::*;
use vstd::string::*;
use crate::endpoint::{Endpoint, LOOPBACK_HOST, SERVER_PORT, lemma_loopback_texts};
use crate::text::{decimal, decimal_text};

verus! {

/// The directory below the resource directory that holds the server.
pub const SERVER_SUBDIR: &'static str = "server";

/// The directory below the server directory that holds an embedded runtime.
pub const EMBEDDED_RUNTIME_DIR: &'static str = "node";

/// The file name of the embedded runtime.
pub const EMBEDDED_RUNTIME_FILE: &'static str = "node.exe";

/// The runtime looked up on the search path when none is embedded.
pub const SYSTEM_RUNTIME: &'static str = "node";

/// The script handed to the runtime as its only argument.
pub const SERVER_SCRIPT: &'static str = "server.js";

/// The variable that tells the server its port.
pub const PORT_VAR: &'static str = "PORT";

/// The variable that tells the server the host name to bind to.
pub const HOSTNAME_VAR: &'static str = "HOSTNAME";

/// The variable that tells the server its run mode.
pub const RUN_MODE_VAR: &'static str = "NODE_ENV";

/// The run mode of a packaged server.
pub const RUN_MODE: &'static str = "production";

/// Which runtime runs the server.
#[derive(Debug, Clone, Copy, PartialEq, Eq, Structural)]
pub enum Runtime {
    /// The copy shipped inside the server directory.
    Embedded,
    /// Whatever the operating system finds on its search path.
    System,
}

/// The embedded runtime is preferred whenever it is present.
pub open spec fn preferred_runtime(embedded_present: bool) -> Runtime {
    if embedded_present {
        Runtime::Embedded
    } else {
        Runtime::System
    }
}

/// Picks the runtime: the embedded one whenever it is present, the system's
/// otherwise.
pub fn select_runtime(embedded_present: bool) -> (runtime: Runtime)
    ensures
        runtime == preferred_runtime(embedded_present),
{
    if embedded_present {
        Runtime::Embedded
    } else {
        Runtime::System
    }
}

/// The segments of the server directory below the resource directory.
pub open spec fn server_dir_segments() -> Seq<Seq<char>> {
    seq![SERVER_SUBDIR@]
}

/// The segments of the embedded runtime below the resource directory.
pub open spec fn embedded_runtime_segments() -> Seq<Seq<char>> {
    server_dir_segments().push(EMBEDDED_RUNTIME_DIR@).push(EMBEDDED_RUNTIME_FILE@)
}

/// The server directory, as segments below the resource directory.
pub fn server_dir() -> (path: Vec<String>)
    ensures
        path.deep_view() == server_dir_segments(),
{
    let mut path: Vec<String> = Vec::new();
    path.push(String::from_str(SERVER_SUBDIR));
    assert(path.deep_view() =~= server_dir_segments());
    path
}

/// The place where an embedded runtime is looked for, as segments below the
/// resource directory.
pub fn embedded_runtime_path() -> (path: Vec<String>)
    ensures
        path.deep_view() == embedded_runtime_segments(),
{
    let mut path: Vec<String> = Vec::new();
    path.push(String::from_str(SERVER_SUBDIR));
    path.push(String::from_str(EMBEDDED_RUNTIME_DIR));
    path.push(String::from_str(EMBEDDED_RUNTIME_FILE));
    assert(path.deep_view() =~= embedded_runtime_segments());
    path
}

/// The program that is executed.
#[derive(Debug, Clone, PartialEq, Eq)]
pub enum Program {
    /// A file below the resource directory, given by its segments.
    Bundled(Vec<String>),
    /// A command name, resolved by the operating system.
    OnSearchPath(String),
}

/// What a [`Program`] stands for.
pub enum ProgramView {
    Bundled(Seq<Seq<char>>),
    OnSearchPath(Seq<char>),
}

impl View for Program {
    type V = ProgramView;

    open spec fn view(&self) -> ProgramView {
        match self {
            Program::Bundled(path) => ProgramView::Bundled(path.deep_view()),
            Program::OnSearchPath(name) => ProgramView::OnSearchPath(name@),
        }
    }
}

/// One environment variable set for the server.
#[derive(Debug, Clone, PartialEq, Eq)]
pub struct EnvVar {
    pub name: String,
    pub value: String,
}

impl View for EnvVar {
    type V = (Seq<char>, Seq<char>);

    open spec fn view(&self) -> (Seq<char>, Seq<char>) {
        (self.name@, self.value@)
    }
}

/// Everything the host needs to start the server.
#[derive(Debug, Clone, PartialEq, Eq)]
pub struct SpawnPlan {
    pub program: Program,
    pub args: Vec<String>,
    /// The working directory, as segments below the resource directory.
    pub working_dir: Vec<String>,
    /// The variables set for the server, beyond what it inherits.
    pub env: Vec<EnvVar>,
}

/// What a [`SpawnPlan`] stands for.
pub struct SpawnPlanView {
    pub program: ProgramView,
    pub args: Seq<Seq<char>>,
    pub working_dir: Seq<Seq<char>>,
    pub env: Seq<(Seq<char>, Seq<char>)>,
}

impl View for SpawnPlan {
    type V = SpawnPlanView;

    open spec fn view(&self) -> SpawnPlanView {
        SpawnPlanView {
            program: self.program@,
            args: self.args.deep_view(),
            working_dir: self.working_dir.deep_view(),
            env: self.env@.map_values(|var: EnvVar| var@),
        }
    }
}

/// The program that stands for `runtime`.
pub open spec fn program_of(runtime: Runtime) -> ProgramView {
    match runtime {
        Runtime::Embedded => ProgramView::Bundled(embedded_runtime_segments()),
        Runtime::System => ProgramView::OnSearchPath(SYSTEM_RUNTIME@),
    }
}

/// The three variables set for a server that listens on `host:port`.
pub open spec fn spawn_env_of(host: Seq<char>, port: nat) -> Seq<(Seq<char>, Seq<char>)> {
    seq![(PORT_VAR@, decimal(port)), (HOSTNAME_VAR@, host), (RUN_MODE_VAR@, RUN_MODE@)]
}

/// The plan for starting the server on `host:port` with `runtime`.
pub open spec fn spawn_plan_of(runtime: Runtime, host: Seq<char>, port: nat) -> SpawnPlanView {
    SpawnPlanView {
        program: program_of(runtime),
        args: seq![SERVER_SCRIPT@],
        working_dir: server_dir_segments(),
        env: spawn_env_of(host, port),
    }
}

/// The program that stands for `runtime`.
pub fn program(runtime: Runtime) -> (program: Program)
    ensures
        program@ == program_of(runtime),
{
    match runtime {
        Runtime::Embedded => Program::Bundled(embedded_runtime_path()),
        Runtime::System => Program::OnSearchPath(String::from_str(SYSTEM_RUNTIME)),
    }
}

/// The variables set for the server: its port, its host name and its run
/// mode, and nothing else.
pub fn spawn_env(endpoint: &Endpoint) -> (env: Vec<EnvVar>)
    ensures
        env@.map_values(|var: EnvVar| var@) == spawn_env_of(endpoint.host@, endpoint.port as nat),
{
    let mut env: Vec<EnvVar> = Vec::new();
    env.push(EnvVar { name: String::from_str(PORT_VAR), value: decimal_text(endpoint.port) });
    env.push(
        EnvVar {
            name: String::from_str(HOSTNAME_VAR),
            value: String::from_str(endpoint.host.as_str()),
        },
    );
    env.push(EnvVar { name: String::from_str(RUN_MODE_VAR), value: String::from_str(RUN_MODE) });
    assert(env@.map_values(|var: EnvVar| var@) =~= spawn_env_of(
        endpoint.host@,
        endpoint.port as nat,
    ));
    env
}

/// The plan for starting the server: the runtime runs the server script from
/// inside the server directory, with exactly the variables of [`spawn_env`].
pub fn spawn_plan(runtime: Runtime, endpoint: &Endpoint) -> (plan: SpawnPlan)
    ensures
        plan@ == spawn_plan_of(runtime, endpoint.host@, endpoint.port as nat),
{
    let mut args: Vec<String> = Vec::new();
    args.push(String::from_str(SERVER_SCRIPT));
    assert(args.deep_view() =~= seq![SERVER_SCRIPT@]);
    SpawnPlan {
        program: program(runtime),
        args,
        working_dir: server_dir(),
        env: spawn_env(endpoint),
    }
}

/// In a packaged build the server is given `PORT=5173`,
/// `HOSTNAME=127.0.0.1` and `NODE_ENV=production`, runs `server.js`, and
/// works in `server` below the resource directory.
pub proof fn lemma_packaged_spawn_plan(runtime: Runtime)
    ensures
        spawn_plan_of(runtime, LOOPBACK_HOST@, SERVER_PORT as nat).env == seq![
            ("PORT"@, "5173"@),
            ("HOSTNAME"@, "127.0.0.1"@),
            ("NODE_ENV"@, "production"@),
        ],
        spawn_plan_of(runtime, LOOPBACK_HOST@, SERVER_PORT as nat).args == seq!["server.js"@],
        spawn_plan_of(runtime, LOOPBACK_HOST@, SERVER_PORT as nat).working_dir == seq!["server"@],
        spawn_plan_of(runtime, LOOPBACK_HOST@, SERVER_PORT as nat).program == (match runtime {
            Runtime::Embedded => ProgramView::Bundled(seq!["server"@, "node"@, "node.exe"@]),
            Runtime::System => ProgramView::OnSearchPath("node"@),
        }),
{
    lemma_loopback_texts();
    assert(embedded_runtime_segments() =~= seq!["server"@, "node"@, "node.exe"@]);
}

} // verus!
