//! Building the toolchain from source: the C library for both widths, then
//! the compiler in two stages against the sysroots that the C library's
//! build left.

use crate::command::{lits, plain, CommandLine, CommandView};
use crate::error::Error;
use crate::path::{join, join_spec};
use crate::plan::{
    bare, plan_view, push_step, push_step_within, push_steps, within, PlanStep, PlanStepView,
    Step, StepView,
};
use crate::text::{cat2, cat3, replace_char, replace_spec};
use crate::toolchain::{
    libc_sysroot, opt_view, sysroot_in, BuildToochainOptions, RustBuildOutput, LIBC_REPO,
    LLVM_LINUX_SOURCE, RUST_BRANCH, RUST_REPO,
};
use vstd::prelude::*;

verus! {

/// The step that makes sure that `command` can be run, by running it with
/// `args`.
pub open spec fn ensure_binary_spec(command: Seq<char>, args: Seq<Seq<char>>) -> PlanStepView {
    within(
        StepView::Run(CommandView { announce: true, ..plain(command, args) }),
        "Could not find or execute binary: "@ + command,
    )
}

/// The step that makes sure that `command` can be run.
pub fn ensure_binary(command: &str, args: &[&'static str]) -> (step: PlanStep)
    ensures
        step@ == ensure_binary_spec(command@, lits(args@)),
{
    let c = CommandLine::new(command).literals(args).announced();
    assert(c@.args =~= lits(args@));
    PlanStep {
        step: Step::Run(c),
        context: Some(cat2("Could not find or execute binary: ", command)),
    }
}

fn push_ensure_binary(plan: &mut Vec<PlanStep>, command: &'static str)
    ensures
        plan_view(final(plan)@) == plan_view(old(plan)@).push(
            ensure_binary_spec(command@, seq!["--version"@]),
        ),
{
    let args: [&'static str; 1] = ["--version"];
    let step = ensure_binary(command, &args);
    assert(lits(args@) =~= seq!["--version"@]);
    assert(plan_view(plan@.push(step)) =~= plan_view(plan@).push(step@));
    plan.push(step);
}

/// The packages that a build needs.
pub open spec fn apt_arguments() -> Seq<Seq<char>> {
    seq!["install"@, "-y"@, "curl"@, "xz-utils"@, "build-essential"@, "git"@, "python3"@]
}

/// The command that installs the packages that a build needs: through
/// `sudo` where that is there.
pub open spec fn setup_apt_spec(have_sudo: bool) -> CommandView {
    CommandView {
        announce: true,
        ..if have_sudo {
            plain("sudo"@, seq!["apt-get"@] + apt_arguments())
        } else {
            plain("apt-get"@, apt_arguments())
        }
    }
}

/// The command that installs the packages that a build needs.
pub fn setup_apt(have_sudo: bool) -> (c: CommandLine)
    ensures
        c@ == setup_apt_spec(have_sudo),
{
    let packages: [&'static str; 7] = [
        "install",
        "-y",
        "curl",
        "xz-utils",
        "build-essential",
        "git",
        "python3",
    ];
    assert(lits(packages@) =~= apt_arguments());
    let c = if have_sudo {
        CommandLine::new("sudo").arg("apt-get").literals(&packages)
    } else {
        CommandLine::new("apt-get").literals(&packages)
    };
    let c = c.announced();
    assert(c@.args =~= setup_apt_spec(have_sudo).args);
    c
}

/// An announced `git` command in the directory `dir`.
pub open spec fn git_in(dir: Seq<char>, args: Seq<Seq<char>>) -> PlanStepView {
    bare(StepView::Run(CommandView { cwd: Some(dir), announce: true, ..plain("git"@, args) }))
}

/// The steps that bring the repository `source` to `tag` in the directory
/// `path`: it is cloned unless it is there, fetched, and reset; then its
/// submodules are brought along if asked for.
pub open spec fn prepare_git_repo_spec(
    source: Seq<char>,
    tag: Seq<char>,
    path: Seq<char>,
    cloned: bool,
    all_submodules: bool,
) -> Seq<PlanStepView> {
    seq![ensure_binary_spec("git"@, seq!["--version"@])] + (if cloned {
        Seq::empty()
    } else {
        seq![
            bare(
                StepView::Run(
                    CommandView { announce: true, ..plain("git"@, seq!["clone"@, source, path]) },
                ),
            ),
        ]
    }) + seq![
        git_in(path, seq!["fetch"@, "origin"@, tag]),
        git_in(path, seq!["reset"@, "--hard"@, tag]),
    ] + (if all_submodules {
        seq![
            git_in(
                path,
                seq!["submodule"@, "update"@, "--init"@, "--recursive"@, "--progress"@],
            ),
        ]
    } else {
        Seq::empty()
    })
}

fn git_step(dir: &str, c: CommandLine) -> (step: Step)
    requires
        c@.program == "git"@,
        c@.cwd is None,
        c@.env.len() == 0,
    ensures
        bare(step@) == git_in(dir@, c@.args),
{
    let c = c.current_dir(dir).announced();
    assert(c@.env =~= Seq::empty());
    Step::Run(c)
}

/// The steps that bring the repository `source` to `tag` in the directory
/// `path`. `cloned` says whether the repository is there already.
pub fn prepare_git_repo(source: &str, tag: &str, path: &str, cloned: bool, all_submodules: bool)
    -> (plan: Vec<PlanStep>)
    ensures
        plan_view(plan@) == prepare_git_repo_spec(source@, tag@, path@, cloned, all_submodules),
{
    let mut plan: Vec<PlanStep> = Vec::new();
    assert(plan_view(plan@) =~= Seq::empty());
    push_ensure_binary(&mut plan, "git");
    if !cloned {
        let c = CommandLine::new("git").arg("clone").arg(source).arg(path).announced();
        assert(c@.args =~= seq!["clone"@, source@, path@]);
        assert(c@.env =~= Seq::empty());
        push_step(&mut plan, Step::Run(c));
    }
    let c = CommandLine::new("git").arg("fetch").arg("origin").arg(tag);
    assert(c@.args =~= seq!["fetch"@, "origin"@, tag@]);
    push_step(&mut plan, git_step(path, c));
    let c = CommandLine::new("git").arg("reset").arg("--hard").arg(tag);
    assert(c@.args =~= seq!["reset"@, "--hard"@, tag@]);
    push_step(&mut plan, git_step(path, c));
    if all_submodules {
        let c = CommandLine::new("git").arg("submodule").arg("update").arg("--init").arg(
            "--recursive",
        ).arg("--progress");
        assert(c@.args =~= seq![
            "submodule"@,
            "update"@,
            "--init"@,
            "--recursive"@,
            "--progress"@,
        ]);
        push_step(&mut plan, git_step(path, c));
    }
    assert(plan_view(plan@) =~= prepare_git_repo_spec(
        source@,
        tag@,
        path@,
        cloned,
        all_submodules,
    ));
    plan
}

/// What a build of the C library goes by.
#[derive(Clone, Debug, PartialEq, Eq)]
pub struct LibcBuild {
    /// The directory in which everything is built.
    pub build_root: String,
    /// The tag or branch to build; `main` if none is given.
    pub git_tag: Option<String>,
    /// Whether the repository is brought up to date first.
    pub update_repo: bool,
    /// Whether the repository is there already.
    pub cloned: bool,
    /// Whether the C compiler is there already.
    pub llvm_present: bool,
    /// The search path of the caller.
    pub search_path: String,
    /// The directory for temporary files.
    pub tmp_dir: String,
}

/// The build of the C library as plain values.
pub struct LibcBuildView {
    pub build_root: Seq<char>,
    pub git_tag: Option<Seq<char>>,
    pub update_repo: bool,
    pub cloned: bool,
    pub llvm_present: bool,
    pub search_path: Seq<char>,
    pub tmp_dir: Seq<char>,
}

impl View for LibcBuild {
    type V = LibcBuildView;

    open spec fn view(&self) -> LibcBuildView {
        LibcBuildView {
            build_root: self.build_root@,
            git_tag: match self.git_tag {
                Some(t) => Some(t@),
                None => None,
            },
            update_repo: self.update_repo,
            cloned: self.cloned,
            llvm_present: self.llvm_present,
            search_path: self.search_path@,
            tmp_dir: self.tmp_dir@,
        }
    }
}

/// The directory of the C library under the build root.
pub open spec fn libc_dir_spec(build_root: Seq<char>) -> Seq<char> {
    join_spec(build_root, "wasix-libc"@)
}

/// The directory of the C compiler under the build root.
pub open spec fn llvm_dir_spec(build_root: Seq<char>) -> Seq<char> {
    join_spec(build_root, "llvm-15"@)
}

/// The C compiler under the build root.
pub open spec fn clang_spec(build_root: Seq<char>) -> Seq<char> {
    join_spec(join_spec(llvm_dir_spec(build_root), "bin"@), "clang"@)
}

/// The steps that download and unpack the C compiler.
pub open spec fn fetch_llvm_spec(build_root: Seq<char>) -> Seq<PlanStepView> {
    let llvm = llvm_dir_spec(build_root);
    let archive = join_spec(libc_dir_spec(build_root), "llvm.tar.xz"@);
    seq![
        bare(StepView::CreateDirAll(llvm)),
        bare(
            StepView::Run(
                CommandView {
                    announce: true,
                    ..plain("curl"@, seq!["-L"@, "-o"@, archive, LLVM_LINUX_SOURCE@])
                },
            ),
        ),
        bare(
            StepView::Run(
                CommandView {
                    announce: true,
                    ..plain(
                        "tar"@,
                        seq!["xJf"@, archive, "-C"@, llvm, "--strip-components"@, "1"@],
                    )
                },
            ),
        ),
        bare(StepView::RemoveFile(archive)),
    ]
}

/// The two steps that build the sysroot of one width: a clean step, then
/// the build script of the width, with the C compiler first on the search
/// path.
pub open spec fn build_sysroot_spec(b: LibcBuildView, is64bit: bool) -> Seq<PlanStepView> {
    let dir = libc_dir_spec(b.build_root);
    let path = join_spec(llvm_dir_spec(b.build_root), "bin"@) + ":"@ + b.search_path;
    seq![
        bare(
            StepView::Run(
                CommandView { cwd: Some(dir), announce: true, ..plain("make"@, seq!["clean"@]) },
            ),
        ),
        within(
            StepView::Run(
                CommandView {
                    cwd: Some(dir),
                    env: seq![("PATH"@, path)],
                    announce: true,
                    ..plain(
                        "bash"@,
                        seq![
                            if is64bit {
                                "./build64.sh"@
                            } else {
                                "./build32.sh"@
                            },
                        ],
                    )
                },
            ),
            if is64bit {
                "could not build sysroot64"@
            } else {
                "could not build sysroot32"@
            },
        ),
    ]
}

/// The steps that build the C library: the sources are prepared, the C
/// compiler is fetched unless it is there and then tried, and the sysroot
/// of each width is built, each after a clean step. The 32-bit sysroot is
/// kept aside while the 64-bit one is built, and put back afterwards.
pub open spec fn build_libc_spec(b: LibcBuildView) -> Seq<PlanStepView> {
    let dir = libc_dir_spec(b.build_root);
    let tag = match b.git_tag {
        Some(t) => t,
        None => "main"@,
    };
    let kept32 = sysroot_in(b.tmp_dir, false);
    let kept64 = sysroot_in(b.tmp_dir, true);
    seq![
        ensure_binary_spec("git"@, seq!["--version"@]),
        within(
            StepView::CreateDirAll(b.build_root),
            "Could not create directory: "@ + b.build_root,
        ),
    ] + (if b.update_repo {
        prepare_git_repo_spec(LIBC_REPO@, tag, dir, b.cloned, true)
    } else {
        Seq::empty()
    }) + (if b.llvm_present {
        Seq::empty()
    } else {
        fetch_llvm_spec(b.build_root)
    }) + seq![
        bare(
            StepView::Run(
                CommandView {
                    announce: true,
                    ..plain(clang_spec(b.build_root), seq!["--version"@])
                },
            ),
        ),
        bare(StepView::RemoveDirIfPresent(kept32)),
        bare(StepView::RemoveDirIfPresent(kept64)),
    ] + build_sysroot_spec(b, false) + seq![
        bare(StepView::CopyTree { from: sysroot_in(dir, false), to: kept32 }),
    ] + build_sysroot_spec(b, true) + seq![
        bare(StepView::RemoveDirIfPresent(sysroot_in(dir, false))),
        within(
            StepView::Rename { from: kept32, to: sysroot_in(dir, false) },
            "could not copy temp dir"@,
        ),
    ]
}

fn fetch_llvm(build_root: &str) -> (plan: Vec<PlanStep>)
    ensures
        plan_view(plan@) == fetch_llvm_spec(build_root@),
{
    let llvm = join(build_root, "llvm-15");
    let libc = join(build_root, "wasix-libc");
    let archive = join(libc.as_str(), "llvm.tar.xz");
    let mut plan: Vec<PlanStep> = Vec::new();
    assert(plan_view(plan@) =~= Seq::empty());
    push_step(&mut plan, Step::CreateDirAll(llvm.clone()));
    let c = CommandLine::new("curl").arg("-L").arg("-o").arg(archive.as_str()).arg(
        LLVM_LINUX_SOURCE,
    ).announced();
    assert(c@.args =~= seq!["-L"@, "-o"@, archive@, LLVM_LINUX_SOURCE@]);
    assert(c@.env =~= Seq::empty());
    push_step(&mut plan, Step::Run(c));
    let c = CommandLine::new("tar").arg("xJf").arg(archive.as_str()).arg("-C").arg(
        llvm.as_str(),
    ).arg("--strip-components").arg("1").announced();
    assert(c@.args =~= seq!["xJf"@, archive@, "-C"@, llvm@, "--strip-components"@, "1"@]);
    assert(c@.env =~= Seq::empty());
    push_step(&mut plan, Step::Run(c));
    push_step(&mut plan, Step::RemoveFile(archive));
    assert(plan_view(plan@) =~= fetch_llvm_spec(build_root@));
    plan
}

fn build_sysroot(b: &LibcBuild, is64bit: bool) -> (plan: Vec<PlanStep>)
    ensures
        plan_view(plan@) == build_sysroot_spec(b@, is64bit),
{
    let dir = join(b.build_root.as_str(), "wasix-libc");
    let llvm = join(b.build_root.as_str(), "llvm-15");
    let bin = join(llvm.as_str(), "bin");
    let path = cat3(bin.as_str(), ":", b.search_path.as_str());
    let mut plan: Vec<PlanStep> = Vec::new();
    assert(plan_view(plan@) =~= Seq::empty());
    let c = CommandLine::new("make").arg("clean").current_dir(dir.as_str()).announced();
    assert(c@.args =~= seq!["clean"@]);
    assert(c@.env =~= Seq::empty());
    push_step(&mut plan, Step::Run(c));
    let c = CommandLine::new("bash").arg(
        if is64bit {
            "./build64.sh"
        } else {
            "./build32.sh"
        },
    ).current_dir(dir.as_str()).env("PATH", path.as_str()).announced();
    assert(c@.args =~= seq![
        if is64bit {
            "./build64.sh"@
        } else {
            "./build32.sh"@
        },
    ]);
    assert(c@.env =~= seq![("PATH"@, path@)]);
    push_step_within(
        &mut plan,
        Step::Run(c),
        if is64bit {
            "could not build sysroot64".to_owned()
        } else {
            "could not build sysroot32".to_owned()
        },
    );
    assert(plan_view(plan@) =~= build_sysroot_spec(b@, is64bit));
    plan
}

/// The steps that build the C library. It is built on Linux only.
pub fn build_libc(b: &LibcBuild, on_linux: bool) -> (r: Result<Vec<PlanStep>, Error>)
    ensures
        r is Ok <==> on_linux,
        r matches Ok(plan) ==> plan_view(plan@) == build_libc_spec(b@),
        r matches Err(e) ==> e.kind is Configuration && e.context@.len() == 0 && e.message@
            == "libc builds are only supported on Linux"@,
{
    if !on_linux {
        return Err(Error::configuration("libc builds are only supported on Linux".to_owned()));
    }
    let root = b.build_root.as_str();
    let dir = join(root, "wasix-libc");
    let kept32 = libc_sysroot(b.tmp_dir.as_str(), false);
    let kept64 = libc_sysroot(b.tmp_dir.as_str(), true);
    let mut plan: Vec<PlanStep> = Vec::new();
    assert(plan_view(plan@) =~= Seq::empty());
    push_ensure_binary(&mut plan, "git");
    push_step_within(
        &mut plan,
        Step::CreateDirAll(root.to_owned()),
        cat2("Could not create directory: ", root),
    );
    if b.update_repo {
        let tag: &str = match &b.git_tag {
            Some(t) => t.as_str(),
            None => "main",
        };
        push_steps(&mut plan, prepare_git_repo(LIBC_REPO, tag, dir.as_str(), b.cloned, true));
    }
    if !b.llvm_present {
        push_steps(&mut plan, fetch_llvm(root));
    }
    let llvm = join(root, "llvm-15");
    let bin = join(llvm.as_str(), "bin");
    let clang = join(bin.as_str(), "clang");
    let c = CommandLine::new(clang.as_str()).arg("--version").announced();
    assert(c@.args =~= seq!["--version"@]);
    assert(c@.env =~= Seq::empty());
    push_step(&mut plan, Step::Run(c));
    push_step(&mut plan, Step::RemoveDirIfPresent(kept32.clone()));
    push_step(&mut plan, Step::RemoveDirIfPresent(kept64));
    push_steps(&mut plan, build_sysroot(b, false));
    push_step(
        &mut plan,
        Step::CopyTree { from: libc_sysroot(dir.as_str(), false), to: kept32.clone() },
    );
    push_steps(&mut plan, build_sysroot(b, true));
    push_step(&mut plan, Step::RemoveDirIfPresent(libc_sysroot(dir.as_str(), false)));
    push_step_within(
        &mut plan,
        Step::Rename { from: kept32, to: libc_sysroot(dir.as_str(), false) },
        "could not copy temp dir".to_owned(),
    );
    assert(plan_view(plan@) =~= build_libc_spec(b@));
    Ok(plan)
}

/// The first part of the compiler's build configuration, up to the 32-bit
/// sysroot.
pub open spec fn config_head() -> Seq<char> {
    "\nchangelog-seen = 2\n\n# NOTE: can't enable because using the cached llvm prevents building rust-lld,\n# which is required for the toolchain to work.\n[llvm]\ndownload-ci-llvm = false\n\n[build]\ntarget = [\"wasm32-wasmer-wasi\", \"wasm64-wasmer-wasi\"]\nextended = true\ntools = [ \"clippy\", \"rustfmt\" ]\nconfigure-args = []\n\n[rust]\nlld = true\nllvm-tools = true\n\n[target.wasm32-wasmer-wasi]\nwasi-root = \""@
}

/// The part of the configuration between the two sysroots.
pub open spec fn config_middle() -> Seq<char> {
    "\"\n\n[target.wasm64-wasmer-wasi]\nwasi-root = \""@
}

/// A path as it stands between quotes in the configuration: each backslash
/// doubled.
pub open spec fn escaped(path: Seq<char>) -> Seq<char> {
    replace_spec(path, '\\', "\\\\"@)
}

/// The compiler's build configuration: both targets are built, and each
/// target is pointed at its sysroot.
pub open spec fn rust_config_spec(sysroot32: Seq<char>, sysroot64: Seq<char>) -> Seq<char> {
    config_head() + escaped(sysroot32) + config_middle() + escaped(sysroot64) + "\"\n"@
}

/// The compiler's build configuration.
pub fn rust_config(sysroot32: &str, sysroot64: &str) -> (text: String)
    ensures
        text@ == rust_config_spec(sysroot32@, sysroot64@),
{
    let mut text =
        "\nchangelog-seen = 2\n\n# NOTE: can't enable because using the cached llvm prevents building rust-lld,\n# which is required for the toolchain to work.\n[llvm]\ndownload-ci-llvm = false\n\n[build]\ntarget = [\"wasm32-wasmer-wasi\", \"wasm64-wasmer-wasi\"]\nextended = true\ntools = [ \"clippy\", \"rustfmt\" ]\nconfigure-args = []\n\n[rust]\nlld = true\nllvm-tools = true\n\n[target.wasm32-wasmer-wasi]\nwasi-root = \"".to_owned();
    text.append(replace_char(sysroot32, '\\', "\\\\").as_str());
    text.append("\"\n\n[target.wasm64-wasmer-wasi]\nwasi-root = \"");
    text.append(replace_char(sysroot64, '\\', "\\\\").as_str());
    text.append("\"\n");
    text
}

/// What a build of the compiler goes by.
#[derive(Clone, Debug, PartialEq, Eq)]
pub struct RustBuild {
    /// The directory in which everything is built.
    pub build_root: String,
    /// The tag or branch to build; the branch `RUST_BRANCH` if none is given.
    pub tag: Option<String>,
    /// The host to build for; the build's own choice if none is given.
    pub host_triple: Option<String>,
    /// Whether the repository is brought up to date first.
    pub update_repo: bool,
    /// Whether the repository is there already.
    pub cloned: bool,
    /// Whether `python3` can be run.
    pub has_python3: bool,
}

/// The build of the compiler as plain values.
pub struct RustBuildView {
    pub build_root: Seq<char>,
    pub tag: Option<Seq<char>>,
    pub host_triple: Option<Seq<char>>,
    pub update_repo: bool,
    pub cloned: bool,
    pub has_python3: bool,
}

impl View for RustBuild {
    type V = RustBuildView;

    open spec fn view(&self) -> RustBuildView {
        RustBuildView {
            build_root: self.build_root@,
            tag: match self.tag {
                Some(t) => Some(t@),
                None => None,
            },
            host_triple: match self.host_triple {
                Some(t) => Some(t@),
                None => None,
            },
            update_repo: self.update_repo,
            cloned: self.cloned,
            has_python3: self.has_python3,
        }
    }
}

/// The directory of the compiler's sources under the build root.
pub open spec fn rust_dir_spec(build_root: Seq<char>) -> Seq<char> {
    join_spec(build_root, "wasix-rust"@)
}

/// The arguments that pin a build to a host.
pub open spec fn host_arguments(host_triple: Option<Seq<char>>) -> Seq<Seq<char>> {
    match host_triple {
        Some(t) => seq!["--host"@, t],
        None => Seq::empty(),
    }
}

/// One stage of the compiler's build.
pub open spec fn stage_spec(b: RustBuildView, program: Seq<char>, args: Seq<Seq<char>>)
    -> PlanStepView {
    bare(
        StepView::Run(
            CommandView {
                cwd: Some(rust_dir_spec(b.build_root)),
                env: seq![("GITHUB_ACTIONS"@, "false"@)],
                announce: true,
                ..plain(program, args + host_arguments(b.host_triple))
            },
        ),
    )
}

/// The message for sysroots that are not there.
pub open spec fn no_sysroots(sysroot32: Seq<char>, sysroot64: Seq<char>) -> Seq<char> {
    "Could not find wasix-libc sysroots at "@ + sysroot32 + " and "@ + sysroot64
}

/// The steps that build the compiler: the C library's build is checked, the
/// sources are prepared, the configuration that points at the two sysroots
/// is written, and the compiler is built in two stages, the second with
/// what the first built.
pub open spec fn build_rust_spec(b: RustBuildView) -> Seq<PlanStepView> {
    let rust = rust_dir_spec(b.build_root);
    let libc = libc_dir_spec(b.build_root);
    let sysroot32 = sysroot_in(libc, false);
    let sysroot64 = sysroot_in(libc, true);
    seq![bare(StepView::CheckLibcDir(libc))] + (if b.update_repo {
        prepare_git_repo_spec(
            RUST_REPO@,
            match b.tag {
                Some(t) => t,
                None => RUST_BRANCH@,
            },
            rust,
            b.cloned,
            true,
        )
    } else {
        Seq::empty()
    }) + seq![
        bare(
            StepView::RequireDirs {
                first: sysroot32,
                second: sysroot64,
                message: no_sysroots(sysroot32, sysroot64),
            },
        ),
        bare(
            StepView::WriteFile {
                path: join_spec(rust, "config.toml"@),
                text: rust_config_spec(sysroot32, sysroot64),
            },
        ),
        stage_spec(
            b,
            if b.has_python3 {
                "python3"@
            } else {
                "python"@
            },
            seq!["x.py"@, "build"@],
        ),
        stage_spec(b, "python3"@, seq![join_spec(rust, "x.py"@), "build"@, "--stage"@, "2"@]),
    ]
}

fn stage(b: &RustBuild, c: CommandLine) -> (step: Step)
    requires
        c@.cwd is None,
        c@.env.len() == 0,
    ensures
        bare(step@) == stage_spec(b@, c@.program, c@.args),
{
    let ghost before = c@;
    let rust = join(b.build_root.as_str(), "wasix-rust");
    let mut c = c.env("GITHUB_ACTIONS", "false");
    assert(c@.env =~= seq![("GITHUB_ACTIONS"@, "false"@)]);
    match &b.host_triple {
        Some(t) => {
            c = c.arg("--host").arg(t.as_str());
            assert(c@.args =~= before.args + host_arguments(b@.host_triple));
        },
        None => {
            assert(c@.args =~= before.args + host_arguments(b@.host_triple));
        },
    }
    Step::Run(c.current_dir(rust.as_str()).announced())
}

/// The steps that build the compiler.
pub fn build_rust(b: &RustBuild) -> (plan: Vec<PlanStep>)
    ensures
        plan_view(plan@) == build_rust_spec(b@),
{
    let root = b.build_root.as_str();
    let rust = join(root, "wasix-rust");
    let libc = join(root, "wasix-libc");
    let sysroot32 = libc_sysroot(libc.as_str(), false);
    let sysroot64 = libc_sysroot(libc.as_str(), true);
    let mut plan: Vec<PlanStep> = Vec::new();
    assert(plan_view(plan@) =~= Seq::empty());
    push_step(&mut plan, Step::CheckLibcDir(libc));
    if b.update_repo {
        let tag: &str = match &b.tag {
            Some(t) => t.as_str(),
            None => RUST_BRANCH,
        };
        push_steps(&mut plan, prepare_git_repo(RUST_REPO, tag, rust.as_str(), b.cloned, true));
    }
    let mut message = cat3(
        "Could not find wasix-libc sysroots at ",
        sysroot32.as_str(),
        " and ",
    );
    message.append(sysroot64.as_str());
    let config = rust_config(sysroot32.as_str(), sysroot64.as_str());
    push_step(&mut plan, Step::RequireDirs { first: sysroot32, second: sysroot64, message });
    push_step(
        &mut plan,
        Step::WriteFile { path: join(rust.as_str(), "config.toml"), text: config },
    );
    let c = CommandLine::new(
        if b.has_python3 {
            "python3"
        } else {
            "python"
        },
    ).arg("x.py").arg("build");
    assert(c@.args =~= seq!["x.py"@, "build"@]);
    push_step(&mut plan, stage(b, c));
    let script = join(rust.as_str(), "x.py");
    let c = CommandLine::new("python3").arg(script.as_str()).arg("build").arg("--stage").arg("2");
    assert(c@.args =~= seq![script@, "build"@, "--stage"@, "2"@]);
    push_step(&mut plan, stage(b, c));
    assert(plan_view(plan@) =~= build_rust_spec(b@));
    plan
}

/// A directory of the compiler's build output: its name, and whether it
/// holds the second stage.
#[derive(Clone, Debug, PartialEq, Eq)]
pub struct BuildDirEntry {
    pub name: String,
    pub has_stage2: bool,
}

/// The name of the first entry that holds the second stage.
pub open spec fn first_stage2(entries: Seq<BuildDirEntry>) -> Option<Seq<char>>
    decreases entries.len(),
{
    if entries.len() == 0 {
        None
    } else if entries[0].has_stage2 {
        Some(entries[0].name@)
    } else {
        first_stage2(entries.drop_first())
    }
}

/// The host that the compiler was built for: the one that was asked for,
/// else the first directory of the build output that holds the second
/// stage.
pub open spec fn built_host(host_triple: Option<Seq<char>>, entries: Seq<BuildDirEntry>)
    -> Option<Seq<char>> {
    match host_triple {
        Some(t) => Some(t),
        None => first_stage2(entries),
    }
}

/// Where the second stage of the build for `host` stands under the build
/// root.
pub open spec fn stage2_dir(build_root: Seq<char>, host: Seq<char>) -> Seq<char> {
    join_spec(join_spec(join_spec(rust_dir_spec(build_root), "build"@), host), "stage2"@)
}

/// Where the build of the compiler left the toolchain. `entries` are the
/// directories of the build output, in the order in which they are listed;
/// they are looked at only where no host was asked for.
pub fn locate_toolchain(
    build_root: &str,
    host_triple: Option<&str>,
    entries: &Vec<BuildDirEntry>,
) -> (r: Result<RustBuildOutput, Error>)
    ensures
        match r {
            Ok(out) => built_host(opt_view(host_triple), entries@) == Some(out.target@)
                && out.toolchain_dir@ == stage2_dir(build_root@, out.target@),
            Err(e) => built_host(opt_view(host_triple), entries@) is None
                && e.kind is Configuration && e.context@.len() == 0 && e.message@
                == "Could not find build directory"@,
        },
{
    let rust = join(build_root, "wasix-rust");
    let build = join(rust.as_str(), "build");
    match host_triple {
        Some(t) => {
            let dir = join(build.as_str(), t);
            return Ok(
                RustBuildOutput {
                    target: t.to_owned(),
                    toolchain_dir: join(dir.as_str(), "stage2"),
                },
            );
        },
        None => {},
    }
    let mut i: usize = 0;
    assert(entries@.subrange(0, entries.len() as int) =~= entries@);
    while i < entries.len()
        invariant
            i <= entries.len(),
            host_triple is None,
            build@ == join_spec(rust_dir_spec(build_root@), "build"@),
            first_stage2(entries@) == first_stage2(
                entries@.subrange(i as int, entries.len() as int),
            ),
        decreases entries.len() - i,
    {
        let ghost rest = entries@.subrange(i as int, entries.len() as int);
        assert(rest.drop_first() =~= entries@.subrange(i + 1, entries.len() as int));
        assert(rest[0] == entries@[i as int]);
        if entries[i].has_stage2 {
            let dir = join(build.as_str(), entries[i].name.as_str());
            return Ok(
                RustBuildOutput {
                    target: entries[i].name.clone(),
                    toolchain_dir: join(dir.as_str(), "stage2"),
                },
            );
        }
        i += 1;
    }
    Err(Error::configuration("Could not find build directory".to_owned()))
}

/// The parts of a build of the toolchain.
#[derive(Clone, Copy, Debug, PartialEq, Eq, Structural)]
pub enum BuildPhase {
    /// Install the packages that a build needs.
    SetupApt,
    /// Build the C library.
    BuildLibc,
    /// Check what the C library's build left; `built` says whether it was
    /// built just now.
    CheckLibc { built: bool },
    /// Build the compiler.
    BuildRust,
    /// Register the toolchain that was built.
    Link,
}

/// The parts of a build of the toolchain, in order. The packages are
/// installed where the package manager is there. The C library is built or
/// not, and checked in either case. The compiler, if it is built, is
/// registered afterwards.
pub open spec fn build_toolchain_spec(build_libc: bool, build_rust: bool, have_apt: bool) -> Seq<
    BuildPhase,
> {
    (if have_apt {
        seq![BuildPhase::SetupApt]
    } else {
        Seq::empty()
    }) + (if build_libc {
        seq![BuildPhase::BuildLibc, BuildPhase::CheckLibc { built: true }]
    } else {
        seq![BuildPhase::CheckLibc { built: false }]
    }) + (if build_rust {
        seq![BuildPhase::BuildRust, BuildPhase::Link]
    } else {
        Seq::empty()
    })
}

/// The parts of a build of the toolchain, in order.
pub fn build_toolchain(options: &BuildToochainOptions, have_apt: bool) -> (phases: Vec<BuildPhase>)
    ensures
        phases@ == build_toolchain_spec(options.build_libc, options.build_rust, have_apt),
{
    let mut phases: Vec<BuildPhase> = Vec::new();
    if have_apt {
        phases.push(BuildPhase::SetupApt);
    }
    if options.build_libc {
        phases.push(BuildPhase::BuildLibc);
        phases.push(BuildPhase::CheckLibc { built: true });
    } else {
        phases.push(BuildPhase::CheckLibc { built: false });
    }
    if options.build_rust {
        phases.push(BuildPhase::BuildRust);
        phases.push(BuildPhase::Link);
    }
    assert(phases@ =~= build_toolchain_spec(options.build_libc, options.build_rust, have_apt));
    phases
}

/// The parts of the build that stands in for a prebuilt toolchain that
/// could not be had, in order: the C library is built and checked, then the
/// compiler is built. What was built is registered by the resolution that
/// asked for the build.
pub fn fallback_build() -> (phases: Vec<BuildPhase>)
    ensures
        phases@ == seq![
            BuildPhase::BuildLibc,
            BuildPhase::CheckLibc { built: true },
            BuildPhase::BuildRust,
        ],
{
    let mut phases: Vec<BuildPhase> = Vec::new();
    phases.push(BuildPhase::BuildLibc);
    phases.push(BuildPhase::CheckLibc { built: true });
    phases.push(BuildPhase::BuildRust);
    assert(phases@ =~= seq![
        BuildPhase::BuildLibc,
        BuildPhase::CheckLibc { built: true },
        BuildPhase::BuildRust,
    ]);
    phases
}

/// The options of the build that stands in for a prebuilt toolchain that
/// could not be had: everything is built, for the build's own choice of
/// host, in the directory `source` under `toolchains_dir`, from sources
/// that are brought up to date.
pub fn fallback_options(toolchains_dir: &str) -> (o: BuildToochainOptions)
    ensures
        o.root@ == join_spec(toolchains_dir@, "source"@),
        o.build_libc,
        o.build_rust,
        o.rust_host_triple is None,
        o.update_repos,
{
    BuildToochainOptions {
        root: join(toolchains_dir, "source"),
        build_libc: true,
        build_rust: true,
        rust_host_triple: None,
        update_repos: true,
    }
}

/// The context of a failed check of the C library's build.
pub fn check_libc_context(built: bool) -> (s: &'static str)
    ensures
        s@ == if built {
            "libc build failed"@
        } else {
            "libc build skipped, but specified path invalid"@
        },
{
    if built {
        "libc build failed"
    } else {
        "libc build skipped, but specified path invalid"
    }
}

} // verus!
