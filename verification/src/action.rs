//! One invocation of the tool: which action was asked for, the build
//! command it leads to, the runtime that runs what was built, and the order
//! of the stages.

use crate::command::{plain, CommandLine, CommandView};
use crate::error::Error;
use crate::records::{CargoMessage, MessageView};
use crate::text::{same, starts_with, strs, to_chars};
use vstd::prelude::*;

verus! {

/// The actions of the tool.
#[derive(Clone, Copy, Debug, PartialEq, Eq, Structural)]
pub enum Subcommand {
    Build,
    BuildToolchain,
    Run,
    Test,
    Bench,
    Check,
    Tree,
    Fix,
}

/// An action with the width of its target.
#[derive(Clone, Copy, Debug, PartialEq, Eq, Structural)]
pub struct Action {
    pub subcommand: Subcommand,
    /// Whether the target is the 64-bit one.
    pub is64bit: bool,
    /// Whether the build tool is asked for its plain output, not for
    /// structured records.
    pub no_message_format: bool,
}

/// What the first argument asks for.
#[derive(Clone, Copy, Debug, PartialEq, Eq, Structural)]
pub enum Request {
    /// A build action.
    Run(Action),
    /// A command about the tool itself.
    Internal,
    /// The version.
    Version,
    /// The help text: for no argument and for any unknown one.
    Help,
}

/// The action `subcommand` for the 32-bit target.
pub open spec fn narrow(subcommand: Subcommand) -> Request {
    Request::Run(
        Action { subcommand, is64bit: false, no_message_format: subcommand is Tree },
    )
}

/// The action `subcommand` for the 64-bit target.
pub open spec fn wide(subcommand: Subcommand) -> Request {
    Request::Run(
        Action { subcommand, is64bit: true, no_message_format: subcommand is Tree },
    )
}

/// What the first argument asks for. Each build action has a name for the
/// 32-bit target and, with `64` after it, one for the 64-bit target.
pub open spec fn request_spec(arg: Option<Seq<char>>) -> Request {
    match arg {
        None => Request::Help,
        Some(a) => if a == "build"@ {
            narrow(Subcommand::Build)
        } else if a == "build64"@ {
            wide(Subcommand::Build)
        } else if a == "build-toolchain"@ {
            narrow(Subcommand::BuildToolchain)
        } else if a == "run"@ {
            narrow(Subcommand::Run)
        } else if a == "run64"@ {
            wide(Subcommand::Run)
        } else if a == "test"@ {
            narrow(Subcommand::Test)
        } else if a == "test64"@ {
            wide(Subcommand::Test)
        } else if a == "bench"@ {
            narrow(Subcommand::Bench)
        } else if a == "bench64"@ {
            wide(Subcommand::Bench)
        } else if a == "check"@ {
            narrow(Subcommand::Check)
        } else if a == "check64"@ {
            wide(Subcommand::Check)
        } else if a == "tree"@ {
            narrow(Subcommand::Tree)
        } else if a == "tree64"@ {
            wide(Subcommand::Tree)
        } else if a == "fix"@ {
            narrow(Subcommand::Fix)
        } else if a == "fix64"@ {
            wide(Subcommand::Fix)
        } else if a == "self"@ {
            Request::Internal
        } else if a == "version"@ || a == "-V"@ || a == "--version"@ {
            Request::Version
        } else {
            Request::Help
        },
    }
}

fn request_of(subcommand: Subcommand, is64bit: bool) -> (r: Request)
    ensures
        r == if is64bit {
            wide(subcommand)
        } else {
            narrow(subcommand)
        },
{
    let no_message_format = match subcommand {
        Subcommand::Tree => true,
        _ => false,
    };
    Request::Run(Action { subcommand, is64bit, no_message_format })
}

/// What the first argument asks for.
pub fn parse_request(arg: Option<&str>) -> (r: Request)
    ensures
        r == request_spec(
            match arg {
                Some(a) => Some(a@),
                None => None,
            },
        ),
{
    let a = match arg {
        Some(a) => a,
        None => {
            return Request::Help;
        },
    };
    if same(a, "build") {
        request_of(Subcommand::Build, false)
    } else if same(a, "build64") {
        request_of(Subcommand::Build, true)
    } else if same(a, "build-toolchain") {
        request_of(Subcommand::BuildToolchain, false)
    } else if same(a, "run") {
        request_of(Subcommand::Run, false)
    } else if same(a, "run64") {
        request_of(Subcommand::Run, true)
    } else if same(a, "test") {
        request_of(Subcommand::Test, false)
    } else if same(a, "test64") {
        request_of(Subcommand::Test, true)
    } else if same(a, "bench") {
        request_of(Subcommand::Bench, false)
    } else if same(a, "bench64") {
        request_of(Subcommand::Bench, true)
    } else if same(a, "check") {
        request_of(Subcommand::Check, false)
    } else if same(a, "check64") {
        request_of(Subcommand::Check, true)
    } else if same(a, "tree") {
        request_of(Subcommand::Tree, false)
    } else if same(a, "tree64") {
        request_of(Subcommand::Tree, true)
    } else if same(a, "fix") {
        request_of(Subcommand::Fix, false)
    } else if same(a, "fix64") {
        request_of(Subcommand::Fix, true)
    } else if same(a, "self") {
        Request::Internal
    } else if same(a, "version") || same(a, "-V") || same(a, "--version") {
        Request::Version
    } else {
        Request::Help
    }
}

/// The name of an action for the build tool.
pub open spec fn subcommand_name(subcommand: Subcommand) -> Seq<char> {
    match subcommand {
        Subcommand::Build => "build"@,
        Subcommand::BuildToolchain => "build-toolchain"@,
        Subcommand::Run => "run"@,
        Subcommand::Test => "test"@,
        Subcommand::Bench => "bench"@,
        Subcommand::Check => "check"@,
        Subcommand::Tree => "tree"@,
        Subcommand::Fix => "fix"@,
    }
}

/// The name of an action for the build tool.
pub fn name_of(subcommand: Subcommand) -> (name: &'static str)
    ensures
        name@ == subcommand_name(subcommand),
{
    match subcommand {
        Subcommand::Build => "build",
        Subcommand::BuildToolchain => "build-toolchain",
        Subcommand::Run => "run",
        Subcommand::Test => "test",
        Subcommand::Bench => "bench",
        Subcommand::Check => "check",
        Subcommand::Tree => "tree",
        Subcommand::Fix => "fix",
    }
}

/// The name of the target of a width.
pub open spec fn target_spec(is64bit: bool) -> Seq<char> {
    if is64bit {
        "wasm64-wasmer-wasi"@
    } else {
        "wasm32-wasmer-wasi"@
    }
}

/// The name of the target of a width.
pub fn target_triple(is64bit: bool) -> (name: &'static str)
    ensures
        name@ == target_spec(is64bit),
{
    if is64bit {
        "wasm64-wasmer-wasi"
    } else {
        "wasm32-wasmer-wasi"
    }
}

/// The arguments of the build tool for `action`: the toolchain, the action,
/// the target, the request for structured output unless the action has
/// none, then the caller's own arguments.
pub open spec fn cargo_arguments_spec(action: Action, rest: Seq<Seq<char>>) -> Seq<Seq<char>> {
    seq!["+wasix"@, subcommand_name(action.subcommand), "--target"@, target_spec(action.is64bit)]
        + (if action.no_message_format {
        Seq::empty()
    } else {
        seq!["--message-format"@, "json-render-diagnostics"@]
    }) + rest
}

/// The command line of the build tool for `action`.
pub fn cargo_command(action: Action, rest: &Vec<String>) -> (c: CommandLine)
    ensures
        c@ == plain("cargo"@, cargo_arguments_spec(action, strs(rest@))),
{
    let mut c = CommandLine::new("cargo").arg("+wasix").arg(name_of(action.subcommand)).arg(
        "--target",
    ).arg(target_triple(action.is64bit));
    if !action.no_message_format {
        c = c.arg("--message-format").arg("json-render-diagnostics");
    }
    let c = c.args(rest);
    assert(c@.args =~= cargo_arguments_spec(action, strs(rest@)));
    c
}

/// Whether an argument asks for verbose output.
pub open spec fn is_verbose_flag(arg: Seq<char>) -> bool {
    "--verbose"@.is_prefix_of(arg) || "-v"@.is_prefix_of(arg)
}

/// Whether one of the caller's arguments asks for verbose output.
pub fn wants_verbose(rest: &Vec<String>) -> (r: bool)
    ensures
        r == exists|i: int| 0 <= i < rest.len() && is_verbose_flag(#[trigger] rest@[i]@),
{
    let mut i: usize = 0;
    while i < rest.len()
        invariant
            i <= rest.len(),
            forall|j: int| 0 <= j < i ==> !is_verbose_flag(#[trigger] rest@[j]@),
        decreases rest.len() - i,
    {
        let arg = rest[i].as_str();
        if starts_with(arg, "--verbose") || starts_with(arg, "-v") {
            return true;
        }
        i += 1;
    }
    false
}

/// A character of a target's name as it stands in the name of an environment
/// variable: a small letter as its capital, a hyphen as an underscore.
pub open spec fn env_char(c: char) -> char {
    if c == '-' {
        '_'
    } else if 'a' <= c <= 'z' {
        ((c as u8) - 32) as char
    } else {
        c
    }
}

/// The name of the variable by which the build tool is told what runs a
/// binary built for `target`.
pub open spec fn runner_env_var_spec(target: Seq<char>) -> Seq<char> {
    "CARGO_TARGET_"@ + target.map_values(|c: char| env_char(c)) + "_RUNNER"@
}

/// The name of the variable by which the build tool is told what runs a
/// binary built for `target`.
pub fn runner_env_var(target: &str) -> (name: String)
    ensures
        name@ == runner_env_var_spec(target@),
{
    let x = to_chars(target);
    let mut name = "CARGO_TARGET_".to_owned();
    let ghost head = name@;
    let ghost mapped = x@.map_values(|c: char| env_char(c));
    let mut i: usize = 0;
    while i < x.len()
        invariant
            i <= x.len(),
            mapped == x@.map_values(|c: char| env_char(c)),
            name@ == head + mapped.take(i as int),
        decreases x.len() - i,
    {
        let c = x[i];
        let d: char = if c == '-' {
            '_'
        } else if 'a' <= c && c <= 'z' {
            ((c as u8) - 32) as char
        } else {
            c
        };
        assert(mapped[i as int] == d);
        assert(head + mapped.take(i + 1) =~= (head + mapped.take(i as int)).push(d));
        name.push(d);
        i += 1;
    }
    assert(mapped.take(x.len() as int) =~= mapped);
    name.append("_RUNNER");
    name
}

/// Whether an action ends by running what it built.
pub open spec fn runs_binaries(subcommand: Subcommand) -> bool {
    subcommand is Run || subcommand is Bench || subcommand is Test
}

/// Whether an action ends by running what it built.
pub fn needs_runtime(subcommand: Subcommand) -> (r: bool)
    ensures
        r == runs_binaries(subcommand),
{
    match subcommand {
        Subcommand::Run | Subcommand::Bench | Subcommand::Test => true,
        _ => false,
    }
}

/// The runtime that runs what was built.
#[derive(Clone, Debug, PartialEq, Eq)]
pub struct Runtime {
    /// Its name or path.
    pub program: String,
    /// Whether it is the default one, not one that the user named.
    pub is_default: bool,
}

/// The runtime to use: the one the user named, else `wasmer`.
pub fn select_runtime(named: Option<String>) -> (r: Runtime)
    ensures
        match named {
            Some(n) => r.program@ == n@ && !r.is_default,
            None => r.program@ == "wasmer"@ && r.is_default,
        },
{
    match named {
        Some(n) => Runtime { program: n, is_default: false },
        None => Runtime { program: "wasmer".to_owned(), is_default: true },
    }
}

/// Whether a runtime can be started: the default one if it is on the search
/// path, a named one if it is there or exists as a path.
pub open spec fn runtime_found(is_default: bool, exists_as_path: bool, on_search_path: bool)
    -> bool {
    on_search_path || (!is_default && exists_as_path)
}

/// The message for a named runtime that was not found.
pub open spec fn named_runtime_missing(program: Seq<char>, variable: Seq<char>) -> Seq<char> {
    "failed to find `"@ + program + "` (specified by $"@ + variable
        + ") on the filesytem or in $PATH, you'll want to fix the path or unset the $"@ + variable
        + " environment variable before running this command\n"@
}

/// The message for the default runtime that was not found.
pub open spec fn default_runtime_missing(program: Seq<char>) -> Seq<char> {
    "failed to find `"@ + program + "` in $PATH, you'll want to install `"@ + program
        + "` before running this command\n"@ + "you can also install through a shell:\n\n"@
        + "\tcurl https://wasmer.io/install.sh -sSf | bash\n"@
}

/// Checks, before any build work, that the runtime can be started.
/// `variable` is the name of the variable that may name a runtime;
/// `exists_as_path` and `on_search_path` say where the runtime was found.
pub fn check_runtime(
    runtime: &Runtime,
    variable: &str,
    exists_as_path: bool,
    on_search_path: bool,
) -> (r: Result<(), Error>)
    ensures
        r is Ok <==> runtime_found(runtime.is_default, exists_as_path, on_search_path),
        r matches Err(e) ==> e.kind is Configuration && e.context@.len() == 0 && e.message@
            == if runtime.is_default {
            default_runtime_missing(runtime.program@)
        } else {
            named_runtime_missing(runtime.program@, variable@)
        },
{
    if !runtime.is_default {
        if !(exists_as_path || on_search_path) {
            let mut msg = "failed to find `".to_owned();
            msg.append(runtime.program.as_str());
            msg.append("` (specified by $");
            msg.append(variable);
            msg.append(
                ") on the filesytem or in $PATH, you'll want to fix the path or unset the $",
            );
            msg.append(variable);
            msg.append(" environment variable before running this command\n");
            return Err(Error::configuration(msg));
        }
    } else if !on_search_path {
        let mut msg = "failed to find `".to_owned();
        msg.append(runtime.program.as_str());
        msg.append("` in $PATH, you'll want to install `");
        msg.append(runtime.program.as_str());
        msg.append("` before running this command\n");
        msg.append("you can also install through a shell:\n\n");
        msg.append("\tcurl https://wasmer.io/install.sh -sSf | bash\n");
        return Err(Error::configuration(msg));
    }
    Ok(())
}

/// The variables that make the build tool hand each binary it would run to
/// `shim`: a marker of the tool's own, and the runner variable of the target.
pub open spec fn shim_environment_spec(variable: Seq<char>, shim: Seq<char>) -> Seq<
    (Seq<char>, Seq<char>),
> {
    seq![("__CARGO_WASIX_RUNNER_SHIM"@, "1"@), (variable, shim)]
}

/// The build command with the variables that defer the running of what it
/// builds.
pub fn with_shim(cargo: CommandLine, variable: &str, shim: &str) -> (c: CommandLine)
    ensures
        c@ == (CommandView { env: cargo@.env + shim_environment_spec(variable@, shim@), ..cargo@ }),
{
    let ghost before = cargo@;
    let c = cargo.env(shim_marker(), "1").env(variable, shim);
    assert(c@.env =~= before.env + shim_environment_spec(variable@, shim@));
    c
}

/// The name of the variable that marks a process as standing in for a
/// binary that the build tool wants to run.
pub fn shim_marker() -> (name: &'static str)
    ensures
        name@ == "__CARGO_WASIX_RUNNER_SHIM"@,
{
    "__CARGO_WASIX_RUNNER_SHIM"
}

/// The one record that a process writes that stands in for a binary: the
/// run that was asked for, named by the arguments after the program's own
/// name. The run itself is not performed.
pub fn deferred_run(argv: &Vec<String>) -> (m: CargoMessage)
    ensures
        m@ == (MessageView::RunWithArgs {
            args: if argv.len() > 0 {
                strs(argv@).subrange(1, argv.len() as int)
            } else {
                Seq::empty()
            },
        }),
{
    let mut args: Vec<String> = Vec::new();
    let mut i: usize = 1;
    if argv.len() > 0 {
        assert(strs(args@) =~= strs(argv@).subrange(1, 1));
    }
    while i < argv.len()
        invariant
            1 <= i,
            i <= argv.len() || argv.len() == 0,
            argv.len() > 0 ==> strs(args@) == strs(argv@).subrange(1, i as int),
            argv.len() == 0 ==> args@.len() == 0,
        decreases argv.len() - i,
    {
        let item = argv[i].clone();
        proof {
            assert(strs(argv@)[i as int] == item@);
            assert(strs(args@.push(item)) =~= strs(args@).push(item@));
            assert(strs(argv@).subrange(1, i + 1) =~= strs(argv@).subrange(1, i as int).push(
                item@,
            ));
        }
        args.push(item);
        i += 1;
    }
    if argv.len() == 0 {
        assert(strs(args@) =~= Seq::empty());
    }
    CargoMessage::RunWithArgs { args }
}

/// The sysroot that is used where the user names none.
pub open spec fn default_sysroot_spec(is64bit: bool) -> Seq<char> {
    if is64bit {
        "/opt/wasix-libc/sysroot64/"@
    } else {
        "/opt/wasix-libc/sysroot32/"@
    }
}

/// The variables of a build: the sysroot of the target if the user named
/// none, and the compiler flags.
pub open spec fn build_environment_spec(is64bit: bool, sysroot_named: bool) -> Seq<
    (Seq<char>, Seq<char>),
> {
    (if sysroot_named {
        Seq::empty()
    } else {
        seq![("WASI_SDK_DIR"@, default_sysroot_spec(is64bit))]
    }) + seq![("RUSTFLAGS"@, "-C target-feature=+atomics"@)]
}

/// The build command with the variables of a build.
pub fn with_build_environment(cargo: CommandLine, is64bit: bool, sysroot_named: bool) -> (c:
    CommandLine)
    ensures
        c@ == (CommandView {
            env: cargo@.env + build_environment_spec(is64bit, sysroot_named),
            ..cargo@
        }),
{
    let ghost before = cargo@;
    let mut c = cargo;
    if !sysroot_named {
        c =
        c.env(
            "WASI_SDK_DIR",
            if is64bit {
                "/opt/wasix-libc/sysroot64/"
            } else {
                "/opt/wasix-libc/sysroot32/"
            },
        );
    }
    let c = c.env("RUSTFLAGS", "-C target-feature=+atomics");
    assert(c@.env =~= before.env + build_environment_spec(is64bit, sysroot_named));
    c
}

/// The arguments with which the runtime runs a deferred run: the flag for
/// threads if the runtime is `wasmer`, two hyphens, then the run's own
/// arguments.
pub open spec fn runtime_arguments_spec(program: Seq<char>, run: Seq<Seq<char>>) -> Seq<
    Seq<char>,
> {
    (if program == "wasmer"@ {
        seq!["--enable-threads"@]
    } else {
        Seq::empty()
    }) + seq!["--"@] + run
}

/// The command line that runs a deferred run.
pub fn runtime_command(program: &str, run: &Vec<String>) -> (c: CommandLine)
    ensures
        c@ == plain(program@, runtime_arguments_spec(program@, strs(run@))),
{
    let mut c = CommandLine::new(program);
    if same(program, "wasmer") {
        c = c.arg("--enable-threads");
    }
    let c = c.arg("--").args(run);
    assert(c@.args =~= runtime_arguments_spec(program@, strs(run@)));
    c
}

/// The stages of an invocation.
#[derive(Clone, Copy, Debug, PartialEq, Eq, Structural)]
pub enum Stage {
    /// Build the toolchain from source.
    BuildToolchain,
    /// Check that the runtime can be started.
    CheckRuntime,
    /// Make the build tool hand over what it would run.
    DeferRuns,
    /// Resolve the toolchain.
    ResolveToolchain,
    /// Run the build tool and read its output.
    Build,
    /// Post-process each binary.
    PostProcess,
    /// Run what was deferred, in the order in which it was recorded.
    RunDeferred,
}

/// The stages of an action, in order: a build resolves the toolchain, runs
/// the build tool, post-processes every binary, and only then runs what the
/// build tool would have run; an action that runs binaries first checks the
/// runtime and defers the runs.
pub open spec fn stages_spec(subcommand: Subcommand) -> Seq<Stage> {
    if subcommand is BuildToolchain {
        seq![Stage::BuildToolchain]
    } else {
        (if runs_binaries(subcommand) {
            seq![Stage::CheckRuntime, Stage::DeferRuns]
        } else {
            Seq::empty()
        }) + seq![Stage::ResolveToolchain, Stage::Build, Stage::PostProcess, Stage::RunDeferred]
    }
}

/// The stages of an action, in order.
pub fn stages(subcommand: Subcommand) -> (out: Vec<Stage>)
    ensures
        out@ == stages_spec(subcommand),
{
    let mut out: Vec<Stage> = Vec::new();
    match subcommand {
        Subcommand::BuildToolchain => {
            out.push(Stage::BuildToolchain);
            assert(out@ =~= stages_spec(subcommand));
            return out;
        },
        _ => {},
    }
    if needs_runtime(subcommand) {
        out.push(Stage::CheckRuntime);
        out.push(Stage::DeferRuns);
    }
    out.push(Stage::ResolveToolchain);
    out.push(Stage::Build);
    out.push(Stage::PostProcess);
    out.push(Stage::RunDeferred);
    assert(out@ =~= stages_spec(subcommand));
    out
}

/// Whether both stages are among `stages` and every `first` stands before
/// every `second`.
pub open spec fn comes_before(stages: Seq<Stage>, first: Stage, second: Stage) -> bool {
    &&& stages.contains(first)
    &&& stages.contains(second)
    &&& forall|i: int, j: int|
        0 <= i < stages.len() && 0 <= j < stages.len() && stages[i] == first && stages[j]
            == second ==> i < j
}

/// Whatever the action: the toolchain is resolved before the build tool
/// runs, the build tool runs before any binary is processed, and every
/// binary is processed before any is run. Where binaries are run, the
/// runtime is checked before any other work, and the runs are deferred
/// before the build tool runs.
pub proof fn lemma_stage_order(subcommand: Subcommand)
    requires
        !(subcommand is BuildToolchain),
    ensures
        comes_before(stages_spec(subcommand), Stage::ResolveToolchain, Stage::Build),
        comes_before(stages_spec(subcommand), Stage::Build, Stage::PostProcess),
        comes_before(stages_spec(subcommand), Stage::PostProcess, Stage::RunDeferred),
        runs_binaries(subcommand) ==> stages_spec(subcommand)[0] == Stage::CheckRuntime
            && comes_before(stages_spec(subcommand), Stage::CheckRuntime, Stage::DeferRuns)
            && comes_before(stages_spec(subcommand), Stage::DeferRuns, Stage::Build),
        !runs_binaries(subcommand) ==> !stages_spec(subcommand).contains(Stage::DeferRuns),
{
    let all = stages_spec(subcommand);
    if runs_binaries(subcommand) {
        assert(all =~= seq![
            Stage::CheckRuntime,
            Stage::DeferRuns,
            Stage::ResolveToolchain,
            Stage::Build,
            Stage::PostProcess,
            Stage::RunDeferred,
        ]);
        assert(all[0] == Stage::CheckRuntime);
        assert(all[1] == Stage::DeferRuns);
        assert(all[2] == Stage::ResolveToolchain);
        assert(all[3] == Stage::Build);
        assert(all[4] == Stage::PostProcess);
        assert(all[5] == Stage::RunDeferred);
    } else {
        assert(all =~= seq![
            Stage::ResolveToolchain,
            Stage::Build,
            Stage::PostProcess,
            Stage::RunDeferred,
        ]);
        assert(all[0] == Stage::ResolveToolchain);
        assert(all[1] == Stage::Build);
        assert(all[2] == Stage::PostProcess);
        assert(all[3] == Stage::RunDeferred);
    }
}

} // verus!
