use sidecar_shell::endpoint::Endpoint;
use sidecar_shell::launch::{
    embedded_runtime_path, program, select_runtime, server_dir, spawn_env, spawn_plan, EnvVar,
    Program, Runtime, SpawnPlan, EMBEDDED_RUNTIME_DIR, EMBEDDED_RUNTIME_FILE, HOSTNAME_VAR,
    PORT_VAR, RUN_MODE, RUN_MODE_VAR, SERVER_SCRIPT, SERVER_SUBDIR, SYSTEM_RUNTIME,
};

fn var(name: &str, value: &str) -> EnvVar {
    EnvVar { name: String::from(name), value: String::from(value) }
}

#[test]
fn fixed_names() {
    assert_eq!(SERVER_SUBDIR, "server");
    assert_eq!(EMBEDDED_RUNTIME_DIR, "node");
    assert_eq!(EMBEDDED_RUNTIME_FILE, "node.exe");
    assert_eq!(SYSTEM_RUNTIME, "node");
    assert_eq!(SERVER_SCRIPT, "server.js");
    assert_eq!(PORT_VAR, "PORT");
    assert_eq!(HOSTNAME_VAR, "HOSTNAME");
    assert_eq!(RUN_MODE_VAR, "NODE_ENV");
    assert_eq!(RUN_MODE, "production");
}

#[test]
fn embedded_runtime_is_preferred_when_present() {
    assert_eq!(select_runtime(true), Runtime::Embedded);
}

#[test]
fn system_runtime_is_the_fallback() {
    assert_eq!(select_runtime(false), Runtime::System);
}

#[test]
fn server_dir_is_below_the_resource_dir() {
    assert_eq!(server_dir(), vec![String::from("server")]);
}

#[test]
fn embedded_runtime_is_inside_the_server_dir() {
    assert_eq!(
        embedded_runtime_path(),
        vec![String::from("server"), String::from("node"), String::from("node.exe")]
    );
    let dir = server_dir();
    assert_eq!(&embedded_runtime_path()[..dir.len()], &dir[..]);
}

#[test]
fn program_of_each_runtime() {
    assert_eq!(
        program(Runtime::Embedded),
        Program::Bundled(vec![
            String::from("server"),
            String::from("node"),
            String::from("node.exe")
        ])
    );
    assert_eq!(program(Runtime::System), Program::OnSearchPath(String::from("node")));
}

#[test]
fn spawn_env_of_the_packaged_build_is_exactly_three_variables() {
    let env = spawn_env(&Endpoint::loopback());
    assert_eq!(
        env,
        vec![var("PORT", "5173"), var("HOSTNAME", "127.0.0.1"), var("NODE_ENV", "production")]
    );
}

#[test]
fn spawn_env_follows_the_endpoint() {
    let env = spawn_env(&Endpoint { host: String::from("0.0.0.0"), port: 3000 });
    assert_eq!(
        env,
        vec![var("PORT", "3000"), var("HOSTNAME", "0.0.0.0"), var("NODE_ENV", "production")]
    );
}

#[test]
fn spawn_plan_with_the_system_runtime() {
    let plan = spawn_plan(Runtime::System, &Endpoint::loopback());
    assert_eq!(
        plan,
        SpawnPlan {
            program: Program::OnSearchPath(String::from("node")),
            args: vec![String::from("server.js")],
            working_dir: vec![String::from("server")],
            env: vec![
                var("PORT", "5173"),
                var("HOSTNAME", "127.0.0.1"),
                var("NODE_ENV", "production")
            ],
        }
    );
}

#[test]
fn spawn_plan_with_the_embedded_runtime() {
    let plan = spawn_plan(Runtime::Embedded, &Endpoint::loopback());
    assert_eq!(
        plan.program,
        Program::Bundled(vec![
            String::from("server"),
            String::from("node"),
            String::from("node.exe")
        ])
    );
    assert_eq!(plan.args, vec![String::from("server.js")]);
    assert_eq!(plan.working_dir, server_dir());
    assert_eq!(plan.env, spawn_env(&Endpoint::loopback()));
}

#[test]
fn spawn_plan_differs_between_runtimes_only_in_the_program() {
    let embedded = spawn_plan(Runtime::Embedded, &Endpoint::loopback());
    let system = spawn_plan(Runtime::System, &Endpoint::loopback());
    assert_ne!(embedded.program, system.program);
    assert_eq!(embedded.args, system.args);
    assert_eq!(embedded.working_dir, system.working_dir);
    assert_eq!(embedded.env, system.env);
}
