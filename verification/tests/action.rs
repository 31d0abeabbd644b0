use cargo_wasix::action::{
    cargo_command, check_runtime, deferred_run, name_of, needs_runtime, parse_request, runner_env_var,
    runtime_command, select_runtime, shim_marker, stages, target_triple, wants_verbose,
    with_build_environment, with_shim, Action, Request, Stage, Subcommand,
};
use cargo_wasix::command::CommandLine;

fn owned(items: &[&str]) -> Vec<String> {
    items.iter().map(|s| s.to_string()).collect()
}

fn action(subcommand: Subcommand, is64bit: bool) -> Request {
    Request::Run(Action {
        subcommand,
        is64bit,
        no_message_format: subcommand == Subcommand::Tree,
    })
}

#[test]
fn help() {
    assert_eq!(parse_request(Some("help")), Request::Help);
    assert_eq!(parse_request(None), Request::Help);
    assert_eq!(parse_request(Some("no-such-action")), Request::Help);
    assert_eq!(parse_request(Some("")), Request::Help);
}

#[test]
fn version() {
    assert_eq!(parse_request(Some("-V")), Request::Version);
    assert_eq!(parse_request(Some("--version")), Request::Version);
    assert_eq!(parse_request(Some("version")), Request::Version);
}

#[test]
fn every_action_has_a_name_for_each_width() {
    for (name, subcommand) in [
        ("build", Subcommand::Build),
        ("run", Subcommand::Run),
        ("test", Subcommand::Test),
        ("bench", Subcommand::Bench),
        ("check", Subcommand::Check),
        ("tree", Subcommand::Tree),
        ("fix", Subcommand::Fix),
    ] {
        assert_eq!(parse_request(Some(name)), action(subcommand, false));
        assert_eq!(parse_request(Some(&format!("{}64", name))), action(subcommand, true));
        assert_eq!(name_of(subcommand), name);
    }
    assert_eq!(parse_request(Some("build-toolchain")), action(Subcommand::BuildToolchain, false));
    assert_eq!(parse_request(Some("self")), Request::Internal);
    assert_eq!(parse_request(Some("Build")), Request::Help);
}

#[test]
fn the_build_command() {
    let a = Action { subcommand: Subcommand::Build, is64bit: false, no_message_format: false };
    let c = cargo_command(a, &owned(&["--release", "-v"]));
    assert_eq!(c.program, "cargo");
    assert_eq!(
        c.args,
        owned(&[
            "+wasix",
            "build",
            "--target",
            "wasm32-wasmer-wasi",
            "--message-format",
            "json-render-diagnostics",
            "--release",
            "-v"
        ])
    );
    assert_eq!(c.cwd, None);
    assert!(c.env.is_empty());
    let a = Action { subcommand: Subcommand::Tree, is64bit: true, no_message_format: true };
    let c = cargo_command(a, &vec![]);
    assert_eq!(c.args, owned(&["+wasix", "tree", "--target", "wasm64-wasmer-wasi"]));
    assert_eq!(target_triple(false), "wasm32-wasmer-wasi");
    assert_eq!(target_triple(true), "wasm64-wasmer-wasi");
}

#[test]
fn verbose_flags_are_seen() {
    assert!(wants_verbose(&owned(&["--release", "-v"])));
    assert!(wants_verbose(&owned(&["-vv"])));
    assert!(wants_verbose(&owned(&["--verbose"])));
    assert!(wants_verbose(&owned(&["--verbose=1", "x"])));
    assert!(!wants_verbose(&owned(&["--release", "v", "--", "--ver"])));
    assert!(!wants_verbose(&vec![]));
}

#[test]
fn the_runner_variable_is_named_after_the_target() {
    assert_eq!(runner_env_var("wasm32-wasmer-wasi"), "CARGO_TARGET_WASM32_WASMER_WASI_RUNNER");
    assert_eq!(runner_env_var("wasm64-wasmer-wasi"), "CARGO_TARGET_WASM64_WASMER_WASI_RUNNER");
    for t in ["wasm32-wasmer-wasi", "a-b_c9", ""] {
        assert_eq!(
            runner_env_var(t),
            format!("CARGO_TARGET_{}_RUNNER", t.to_uppercase().replace('-', "_"))
        );
    }
}

#[test]
fn run_override_runtime() {
    let variable = "CARGO_TARGET_WASM32_WASMER_WASI_RUNNER";
    let missing = "command-and-path-that-is-unlikely-to-exist-eac9cb6c-fa25-4487-b07f-38116cc6dade";
    let runtime = select_runtime(Some(missing.to_string()));
    assert_eq!(runtime.program, missing);
    assert!(!runtime.is_default);
    let e = check_runtime(&runtime, variable, false, false).unwrap_err();
    assert_eq!(
        e.message,
        format!(
            "failed to find `{}` (specified by ${}) on the filesytem or in $PATH, you'll want to fix the path or unset the ${} environment variable before running this command\n",
            missing, variable, variable
        )
    );
    assert_eq!(check_runtime(&runtime, variable, true, false), Ok(()));
    assert_eq!(check_runtime(&runtime, variable, false, true), Ok(()));
    let c = runtime_command("echo", &owned(&["target.wasm32-wasmer-wasi.debug.foo.wasm"]));
    assert_eq!(c.program, "echo");
    assert_eq!(c.args, owned(&["--", "target.wasm32-wasmer-wasi.debug.foo.wasm"]));
}

#[test]
fn the_default_runtime_must_be_on_the_search_path() {
    let runtime = select_runtime(None);
    assert_eq!(runtime.program, "wasmer");
    assert!(runtime.is_default);
    assert_eq!(check_runtime(&runtime, "X", false, true), Ok(()));
    let e = check_runtime(&runtime, "X", true, false).unwrap_err();
    assert_eq!(
        e.message,
        "failed to find `wasmer` in $PATH, you'll want to install `wasmer` before running this command\nyou can also install through a shell:\n\n\tcurl https://wasmer.io/install.sh -sSf | bash\n"
    );
}

#[test]
fn run_forward_args() {
    let c = runtime_command("wasmer", &owned(&["foo.wasm", "a", "-b", "c"]));
    assert_eq!(c.program, "wasmer");
    assert_eq!(c.args, owned(&["--enable-threads", "--", "foo.wasm", "a", "-b", "c"]));
}

#[test]
fn the_environment_of_a_build() {
    let c = with_build_environment(CommandLine::new("cargo"), true, false);
    assert_eq!(
        c.env,
        vec![
            ("WASI_SDK_DIR".to_string(), "/opt/wasix-libc/sysroot64/".to_string()),
            ("RUSTFLAGS".to_string(), "-C target-feature=+atomics".to_string()),
        ]
    );
    let c = with_build_environment(CommandLine::new("cargo"), false, false);
    assert_eq!(c.env[0].1, "/opt/wasix-libc/sysroot32/");
    let c = with_build_environment(CommandLine::new("cargo"), false, true);
    assert_eq!(c.env, vec![("RUSTFLAGS".to_string(), "-C target-feature=+atomics".to_string())]);
    let c = with_shim(CommandLine::new("cargo"), "VAR", "/bin/self");
    assert_eq!(
        c.env,
        vec![
            ("__CARGO_WASIX_RUNNER_SHIM".to_string(), "1".to_string()),
            ("VAR".to_string(), "/bin/self".to_string()),
        ]
    );
}

#[test]
fn binaries_are_run_after_all_are_processed() {
    for s in [Subcommand::Run, Subcommand::Test, Subcommand::Bench] {
        assert!(needs_runtime(s));
        assert_eq!(
            stages(s),
            vec![
                Stage::CheckRuntime,
                Stage::DeferRuns,
                Stage::ResolveToolchain,
                Stage::Build,
                Stage::PostProcess,
                Stage::RunDeferred
            ]
        );
    }
    for s in [Subcommand::Build, Subcommand::Check, Subcommand::Tree, Subcommand::Fix] {
        assert!(!needs_runtime(s));
        assert_eq!(
            stages(s),
            vec![Stage::ResolveToolchain, Stage::Build, Stage::PostProcess, Stage::RunDeferred]
        );
    }
    assert_eq!(stages(Subcommand::BuildToolchain), vec![Stage::BuildToolchain]);
}

#[test]
fn a_command_line_is_announced() {
    let c = CommandLine::new("git").arg("fetch").arg("origin").current_dir("/x").announced();
    assert_eq!(c.announcement(), "Running git fetch origin:");
    assert_eq!(c.cwd, Some("/x".to_string()));
    assert!(c.announce);
    assert_eq!(CommandLine::new("make").announcement(), "Running make :");
}

#[test]
fn a_stand_in_writes_down_the_run_it_was_asked_for() {
    let m = deferred_run(&owned(&["/bin/cargo-wasix", "/t/foo.wasm", "a", "-b"]));
    assert_eq!(m, cargo_wasix::records::CargoMessage::RunWithArgs { args: owned(&["/t/foo.wasm", "a", "-b"]) });
    let m = deferred_run(&owned(&["/bin/cargo-wasix"]));
    assert_eq!(m, cargo_wasix::records::CargoMessage::RunWithArgs { args: vec![] });
    let m = deferred_run(&vec![]);
    assert_eq!(m, cargo_wasix::records::CargoMessage::RunWithArgs { args: vec![] });
    assert_eq!(shim_marker(), "__CARGO_WASIX_RUNNER_SHIM");
}
