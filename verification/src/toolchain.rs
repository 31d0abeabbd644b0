//! The toolchain: where it is built, how it is found among the registered
//! toolchains, which release assets make a prebuilt one, and how it is
//! registered and checked.

use crate::command::{plain, CommandLine, CommandView};
use crate::error::Error;
use crate::path::{join, join_spec, parent, parent_spec, same_path, same_path_spec};
use crate::plan::{plan_view, push_step_within, within, PlanStep, PlanStepView, Step, StepView};
use crate::text::{
    cat2, cat3, from_chars, lines_spec, same, split_lines, starts_with, strip_matches, strs,
    to_chars, trim, trim_bounds, trim_end_matches_spec, trim_spec, trim_start_matches_spec,
};
pub use crate::resolver::ensure_toolchain;
pub use crate::source_build::build_toolchain;
use vstd::prelude::*;

verus! {

/// The repository of the compiler.
pub const RUST_REPO: &'static str = "https://github.com/wasix-org/rust.git";

/// The branch of the compiler's repository that is built.
pub const RUST_BRANCH: &'static str = "wasix";

/// The name under which the toolchain is registered.
pub const RUSTUP_TOOLCHAIN_NAME: &'static str = "wasix";

/// The repository of the C library.
pub const LIBC_REPO: &'static str = "https://github.com/wasix-org/wasix-libc.git";

/// Where the C compiler that builds the C library is downloaded from.
pub const LLVM_LINUX_SOURCE: &'static str =
    "https://github.com/llvm/llvm-project/releases/download/llvmorg-15.0.2/clang+llvm-15.0.2-x86_64-unknown-linux-gnu-rhel86.tar.xz";

/// Options for building the toolchain from source.
#[derive(Clone, Debug, PartialEq, Eq)]
pub struct BuildToochainOptions {
    /// The directory in which everything is built.
    pub root: String,
    pub build_libc: bool,
    pub build_rust: bool,
    /// The host to build the compiler for; the build's own choice if none.
    pub rust_host_triple: Option<String>,
    /// Whether the repositories are brought up to date first.
    pub update_repos: bool,
}

/// Which components a value of the components variable selects, as the pair
/// of C library and compiler: both for no value and for `all`.
pub open spec fn components_spec(value: Seq<char>) -> Option<(bool, bool)> {
    if value.len() == 0 || value == "all"@ {
        Some((true, true))
    } else if value == "libc"@ {
        Some((true, false))
    } else if value == "rust"@ {
        Some((false, true))
    } else {
        None
    }
}

/// The value of a variable that may be unset.
pub open spec fn opt_view(v: Option<&str>) -> Option<Seq<char>> {
    match v {
        Some(s) => Some(s@),
        None => None,
    }
}

/// The value of a field that may be empty.
pub open spec fn opt_string(v: Option<String>) -> Option<Seq<char>> {
    match v {
        Some(s) => Some(s@),
        None => None,
    }
}

/// The message for a components value that selects nothing.
pub open spec fn invalid_components(value: Seq<char>) -> Seq<char> {
    "Invalid env var WASIX_COMPONENTS with value '"@ + value + "' - expected 'all' or 'libc'"@
}

/// The directory in which the toolchain is built: the one that is named,
/// else `.wasix` in the home directory.
pub open spec fn build_root_spec(build_dir: Option<Seq<char>>, home_dir: Option<Seq<char>>)
    -> Option<Seq<char>> {
    match build_dir {
        Some(d) => Some(d),
        None => match home_dir {
            Some(h) => Some(join_spec(h, ".wasix"@)),
            None => None,
        },
    }
}

impl BuildToochainOptions {
    /// The options that the environment asks for. `components`, `build_dir`
    /// and `rust_host` are the values of the variables `WASIX_COMPONENTS`,
    /// `WASIX_BUILD_DIR` and `WASIX_RUST_HOST`, `home_dir` is the user's home
    /// directory, and `no_update_repos` says whether `WASIX_NO_UPDATE_REPOS`
    /// is set.
    pub fn from_env(
        components: Option<&str>,
        build_dir: Option<&str>,
        home_dir: Option<&str>,
        rust_host: Option<&str>,
        no_update_repos: bool,
    ) -> (r: Result<BuildToochainOptions, Error>)
        ensures
            ({
                let value = match components {
                    Some(c) => c@,
                    None => Seq::empty(),
                };
                let root = build_root_spec(opt_view(build_dir), opt_view(home_dir));
                match r {
                    Ok(o) => components_spec(value) == Some((o.build_libc, o.build_rust))
                        && root == Some(o.root@) && opt_string(o.rust_host_triple) == opt_view(
                        rust_host,
                    ) && o.update_repos == !no_update_repos,
                    Err(e) => e.kind is Configuration && e.context@.len() == 0 && if components_spec(
                        value,
                    ) is None {
                        e.message@ == invalid_components(value)
                    } else {
                        root is None && e.message@
                            == "Could not determine home dir. set WASIX_BUILD_DIR env var!"@
                    },
                }
            }),
    {
        let value = match components {
            Some(c) => c,
            None => "",
        };
        proof {
            reveal_strlit("");
        }
        let (build_libc, build_rust) = if value.is_empty() || same(value, "all") {
            (true, true)
        } else if same(value, "libc") {
            (true, false)
        } else if same(value, "rust") {
            (false, true)
        } else {
            return Err(
                Error::configuration(
                    cat3(
                        "Invalid env var WASIX_COMPONENTS with value '",
                        value,
                        "' - expected 'all' or 'libc'",
                    ),
                ),
            );
        };
        let root = match build_dir {
            Some(d) => d.to_owned(),
            None => match home_dir {
                Some(h) => join(h, ".wasix"),
                None => {
                    return Err(
                        Error::configuration(
                            "Could not determine home dir. set WASIX_BUILD_DIR env var!".to_owned(),
                        ),
                    );
                },
            },
        };
        let rust_host_triple = match rust_host {
            Some(h) => Some(h.to_owned()),
            None => None,
        };
        Ok(
            BuildToochainOptions {
                root,
                build_libc,
                build_rust,
                rust_host_triple,
                update_repos: !no_update_repos,
            },
        )
    }
}

/// What was found of the C library's build.
#[derive(Clone, Debug, PartialEq, Eq)]
pub struct LibcDirProbe {
    /// Whether the sysroot of the 32-bit target is a directory.
    pub dir32: bool,
    /// Whether its archive is a file.
    pub archive32: bool,
    /// Whether the sysroot of the 64-bit target is a directory.
    pub dir64: bool,
    /// Whether its archive is a file.
    pub archive64: bool,
}

/// The sysroot of a width in the directory `dir` of the C library.
pub open spec fn sysroot_in(dir: Seq<char>, is64bit: bool) -> Seq<char> {
    join_spec(
        dir,
        if is64bit {
            "sysroot64"@
        } else {
            "sysroot32"@
        },
    )
}

/// The archive of the C library for a width in the directory `dir`.
pub open spec fn archive_in(dir: Seq<char>, is64bit: bool) -> Seq<char> {
    join_spec(
        sysroot_in(dir, is64bit),
        if is64bit {
            "lib/wasm64-wasi/libc.a"@
        } else {
            "lib/wasm32-wasi/libc.a"@
        },
    )
}

/// The sysroot of a width in the directory `dir` of the C library.
pub fn libc_sysroot(dir: &str, is64bit: bool) -> (p: String)
    ensures
        p@ == sysroot_in(dir@, is64bit),
{
    join(
        dir,
        if is64bit {
            "sysroot64"
        } else {
            "sysroot32"
        },
    )
}

/// The archive of the C library for a width in the directory `dir`.
pub fn libc_archive(dir: &str, is64bit: bool) -> (p: String)
    ensures
        p@ == archive_in(dir@, is64bit),
{
    let root = libc_sysroot(dir, is64bit);
    join(
        root.as_str(),
        if is64bit {
            "lib/wasm64-wasi/libc.a"
        } else {
            "lib/wasm32-wasi/libc.a"
        },
    )
}

/// The first thing that is missing of the C library's build, as a message;
/// none if all is there. The 32-bit sysroot is looked at first, and of each
/// width the directory before the archive.
pub open spec fn libc_dir_fault(dir: Seq<char>, found: LibcDirProbe) -> Option<Seq<char>> {
    if !found.dir32 {
        Some("Invalid libc dir: directory does not exit: '"@ + sysroot_in(dir, false) + "'"@)
    } else if !found.archive32 {
        Some("Invalid libc dir: archive does not exit: '"@ + archive_in(dir, false) + "'"@)
    } else if !found.dir64 {
        Some("Invalid libc dir: directory does not exit: '"@ + sysroot_in(dir, true) + "'"@)
    } else if !found.archive64 {
        Some("Invalid libc dir: archive does not exit: '"@ + archive_in(dir, true) + "'"@)
    } else {
        None
    }
}

/// Checks that the directory `dir` of the C library holds, for each width,
/// the sysroot and in it the archive.
pub fn ensure_libc_dir_valid(dir: &str, found: &LibcDirProbe) -> (r: Result<(), Error>)
    ensures
        match r {
            Ok(_) => libc_dir_fault(dir@, *found) is None,
            Err(e) => e.kind is Validation && e.context@.len() == 0 && libc_dir_fault(
                dir@,
                *found,
            ) == Some(e.message@),
        },
{
    if !found.dir32 {
        let p = libc_sysroot(dir, false);
        return Err(
            Error::validation(
                cat3("Invalid libc dir: directory does not exit: '", p.as_str(), "'"),
            ),
        );
    }
    if !found.archive32 {
        let p = libc_archive(dir, false);
        return Err(
            Error::validation(
                cat3("Invalid libc dir: archive does not exit: '", p.as_str(), "'"),
            ),
        );
    }
    if !found.dir64 {
        let p = libc_sysroot(dir, true);
        return Err(
            Error::validation(
                cat3("Invalid libc dir: directory does not exit: '", p.as_str(), "'"),
            ),
        );
    }
    if !found.archive64 {
        let p = libc_archive(dir, true);
        return Err(
            Error::validation(
                cat3("Invalid libc dir: archive does not exit: '", p.as_str(), "'"),
            ),
        );
    }
    Ok(())
}

/// The host for which a prebuilt toolchain exists on a machine of
/// architecture `arch` under the operating system `os`.
pub open spec fn host_target_spec(arch: Seq<char>, os: Seq<char>) -> Option<Seq<char>> {
    if arch == "x86_64"@ && os == "linux"@ {
        Some("x86_64-unknown-linux-gnu"@)
    } else if arch == "x86_64"@ && os == "macos"@ {
        Some("x86_64-apple-darwin"@)
    } else if arch == "aarch64"@ && os == "macos"@ {
        Some("aarch64-apple-darwin"@)
    } else if arch == "x86_64"@ && os == "windows"@ {
        Some("x86_64-pc-windows-msvc"@)
    } else {
        None
    }
}

/// The host for which a prebuilt toolchain exists on this kind of machine.
pub fn guess_host_target(arch: &str, os: &str) -> (r: Option<&'static str>)
    ensures
        opt_view(r) == host_target_spec(arch@, os@),
{
    let x86 = same(arch, "x86_64");
    if x86 && same(os, "linux") {
        Some("x86_64-unknown-linux-gnu")
    } else if x86 && same(os, "macos") {
        Some("x86_64-apple-darwin")
    } else if same(arch, "aarch64") && same(os, "macos") {
        Some("aarch64-apple-darwin")
    } else if x86 && same(os, "windows") {
        Some("x86_64-pc-windows-msvc")
    } else {
        None
    }
}

/// Where a build of the compiler left the toolchain.
#[derive(Clone, Debug, PartialEq, Eq)]
pub struct RustBuildOutput {
    /// The host that the compiler was built for.
    pub target: String,
    pub toolchain_dir: String,
}

/// A registered toolchain.
#[derive(Clone, Debug, PartialEq, Eq)]
pub struct RustupToolchain {
    pub name: String,
    pub path: String,
}

/// The first of `lines` that, trimmed, starts with `name`.
pub open spec fn listed_line(lines: Seq<Seq<char>>, name: Seq<char>) -> Option<Seq<char>>
    decreases lines.len(),
{
    if lines.len() == 0 {
        None
    } else if name.is_prefix_of(trim_spec(lines[0])) {
        Some(lines[0])
    } else {
        listed_line(lines.drop_first(), name)
    }
}

/// The path that a list of the registered toolchains gives for `name`: of
/// the first line that, trimmed, starts with `name`, what follows the name,
/// trimmed; none if there is no such line, or if that line has something
/// before the name.
pub open spec fn listed_path(listing: Seq<char>, name: Seq<char>) -> Option<Seq<char>> {
    match listed_line(lines_spec(listing), name) {
        Some(line) => if name.is_prefix_of(line) {
            Some(trim_spec(line.subrange(name.len() as int, line.len() as int)))
        } else {
            None
        },
        None => None,
    }
}

/// The name of the compiler's executable.
pub fn rustc_name(windows: bool) -> (name: &'static str)
    ensures
        name@ == if windows {
            "rustc.exe"@
        } else {
            "rustc"@
        },
{
    if windows {
        "rustc.exe"
    } else {
        "rustc"
    }
}

/// Where the compiler's executable stands in the toolchain directory `dir`.
pub open spec fn rustc_path_spec(dir: Seq<char>, windows: bool) -> Seq<char> {
    join_spec(
        join_spec(dir, "bin"@),
        if windows {
            "rustc.exe"@
        } else {
            "rustc"@
        },
    )
}

/// Where the compiler's executable stands in the toolchain directory `dir`.
pub fn rustc_path(dir: &str, windows: bool) -> (p: String)
    ensures
        p@ == rustc_path_spec(dir@, windows),
{
    let bin = join(dir, "bin");
    join(bin.as_str(), rustc_name(windows))
}

/// The commands that register the directory `dir` under `name`: a
/// registration that exists is removed first.
pub open spec fn link_plan(name: Seq<char>, dir: Seq<char>, registered: bool) -> Seq<
    PlanStepView,
> {
    (if registered {
        seq![
            within(
                StepView::Run(plain("rustup"@, seq!["toolchain"@, "remove"@, name])),
                "Could not remove wasix toolchain"@,
            ),
        ]
    } else {
        Seq::empty()
    }) + seq![
        within(
            StepView::Run(
                CommandView {
                    announce: true,
                    ..plain("rustup"@, seq!["toolchain"@, "link"@, name, dir])
                },
            ),
            "Could not link toolchain: rustup not installed?"@,
        ),
    ]
}

impl RustupToolchain {
    /// The toolchain that is registered under `name`, read from `listing`,
    /// the verbose list of the registered toolchains.
    pub fn find_by_name(name: &str, listing: &str) -> (r: Option<RustupToolchain>)
        ensures
            match r {
                Some(t) => t.name@ == name@ && listed_path(listing@, name@) == Some(t.path@),
                None => listed_path(listing@, name@) is None,
            },
    {
        let lines = split_lines(listing);
        let mut i: usize = 0;
        assert(strs(lines@).subrange(0, lines.len() as int) =~= strs(lines@));
        while i < lines.len()
            invariant
                i <= lines.len(),
                strs(lines@) == lines_spec(listing@),
                listed_line(strs(lines@), name@) == listed_line(
                    strs(lines@).subrange(i as int, lines.len() as int),
                    name@,
                ),
            decreases lines.len() - i,
        {
            let ghost rest = strs(lines@).subrange(i as int, lines.len() as int);
            assert(rest.drop_first() =~= strs(lines@).subrange(i + 1, lines.len() as int));
            assert(rest[0] == lines@[i as int]@);
            let line = lines[i].as_str();
            let trimmed = trim(line);
            if starts_with(trimmed.as_str(), name) {
                if !starts_with(line, name) {
                    return None;
                }
                let x = to_chars(line);
                let n = to_chars(name);
                let (a, b) = trim_bounds(&x, n.len(), x.len());
                let path = from_chars(&x, a, b);
                return Some(RustupToolchain { name: name.to_owned(), path });
            }
            i += 1;
        }
        None
    }

    /// The plan that registers the directory `dir` under `name`.
    /// `rustc_is_file` says whether the compiler's executable is in `dir`,
    /// `registered` whether `name` is registered already.
    pub fn link(name: &str, dir: &str, windows: bool, rustc_is_file: bool, registered: bool) -> (r:
        Result<Vec<PlanStep>, Error>)
        ensures
            r is Ok <==> rustc_is_file,
            r matches Ok(plan) ==> plan_view(plan@) == link_plan(name@, dir@, registered),
            r matches Err(e) ==> e.kind is Configuration && e.context@.len() == 0 && e.message@
                == "Invalid toolchain directory: rustc executable not found at "@
                + rustc_path_spec(dir@, windows),
    {
        if !rustc_is_file {
            let p = rustc_path(dir, windows);
            return Err(
                Error::configuration(
                    cat2(
                        "Invalid toolchain directory: rustc executable not found at ",
                        p.as_str(),
                    ),
                ),
            );
        }
        let mut plan: Vec<PlanStep> = Vec::new();
        assert(plan_view(plan@) =~= Seq::empty());
        if registered {
            let c = CommandLine::new("rustup").arg("toolchain").arg("remove").arg(name);
            assert(c@.args =~= seq!["toolchain"@, "remove"@, name@]);
            push_step_within(&mut plan, Step::Run(c), "Could not remove wasix toolchain".to_owned());
        }
        let c = CommandLine::new("rustup").arg("toolchain").arg("link").arg(name).arg(
            dir,
        ).announced();
        assert(c@.args =~= seq!["toolchain"@, "link"@, name@, dir@]);
        push_step_within(
            &mut plan,
            Step::Run(c),
            "Could not link toolchain: rustup not installed?".to_owned(),
        );
        assert(plan_view(plan@) =~= link_plan(name@, dir@, registered));
        Ok(plan)
    }

    /// Where the sysroot of a width stands beside the toolchain: in the
    /// directory above the toolchain's own.
    pub open spec fn sysroot_path_spec(path: Seq<char>, is64bit: bool) -> Option<Seq<char>> {
        match parent_spec(path) {
            Some(dir) => Some(sysroot_in(dir, is64bit)),
            None => None,
        }
    }

    /// Where the sysroot of a width stands beside the toolchain.
    pub fn sysroot_path(&self, is64bit: bool) -> (r: Option<String>)
        ensures
            opt_string(r) == Self::sysroot_path_spec(self.path@, is64bit),
    {
        match parent(self.path.as_str()) {
            Some(dir) => Some(libc_sysroot(dir.as_str(), is64bit)),
            None => None,
        }
    }

    /// The sysroot of a width beside the toolchain, if it is there:
    /// `is_dir` says whether the path that `sysroot_path` gives is a
    /// directory.
    pub fn sysroot_dir(&self, is64bit: bool, is_dir: bool) -> (r: Option<String>)
        ensures
            opt_string(r) == if is_dir {
                Self::sysroot_path_spec(self.path@, is64bit)
            } else {
                None
            },
    {
        if is_dir {
            self.sysroot_path(is64bit)
        } else {
            None
        }
    }
}

/// A file of a release.
#[derive(Clone, Debug, PartialEq, Eq)]
pub struct GithubAsset {
    pub browser_download_url: String,
    pub name: String,
}

/// A release of the prebuilt toolchain.
#[derive(Clone, Debug, PartialEq, Eq)]
pub struct GithubReleaseData {
    pub assets: Vec<GithubAsset>,
    pub tag_name: String,
}

/// Where the first of `assets` with the name `name` is downloaded from.
pub open spec fn asset_url(assets: Seq<GithubAsset>, name: Seq<char>) -> Option<Seq<char>>
    decreases assets.len(),
{
    if assets.len() == 0 {
        None
    } else if assets[0].name@ == name {
        Some(assets[0].browser_download_url@)
    } else {
        asset_url(assets.drop_first(), name)
    }
}

fn find_asset(assets: &Vec<GithubAsset>, name: &str) -> (r: Option<String>)
    ensures
        opt_string(r) == asset_url(assets@, name@),
{
    let mut i: usize = 0;
    assert(assets@.subrange(0, assets.len() as int) =~= assets@);
    while i < assets.len()
        invariant
            i <= assets.len(),
            asset_url(assets@, name@) == asset_url(
                assets@.subrange(i as int, assets.len() as int),
                name@,
            ),
        decreases assets.len() - i,
    {
        let ghost rest = assets@.subrange(i as int, assets.len() as int);
        assert(rest.drop_first() =~= assets@.subrange(i + 1, assets.len() as int));
        assert(rest[0] == assets@[i as int]);
        if same(assets[i].name.as_str(), name) {
            return Some(assets[i].browser_download_url.clone());
        }
        i += 1;
    }
    None
}

/// The address that describes the latest release of the repository `repo`.
pub open spec fn release_url_spec(repo: Seq<char>) -> Seq<char> {
    "https://api.github.com/repos/"@ + trim_end_matches_spec(
        trim_start_matches_spec(repo, "https://github.com/"@),
        ".git"@,
    ) + "/releases/latest"@
}

/// The address that describes the latest release of the repository `repo`.
pub fn release_url(repo: &str) -> (url: String)
    ensures
        url@ == release_url_spec(repo@),
{
    let slug = strip_matches(repo, "https://github.com/", ".git");
    cat3("https://api.github.com/repos/", slug.as_str(), "/releases/latest")
}

/// The value of the authorization header for an access token: none for no
/// token and for one that is empty once trimmed.
pub open spec fn authorization_spec(token: Option<Seq<char>>) -> Option<Seq<char>> {
    match token {
        Some(t) => if trim_spec(t).len() == 0 {
            None
        } else {
            Some("Bearer "@ + trim_spec(t))
        },
        None => None,
    }
}

/// The value of the authorization header for an access token.
pub fn authorization(token: Option<&str>) -> (r: Option<String>)
    ensures
        opt_string(r) == authorization_spec(opt_view(token)),
{
    match token {
        Some(t) => {
            let trimmed = trim(t);
            if trimmed.as_str().is_empty() {
                None
            } else {
                Some(cat2("Bearer ", trimmed.as_str()))
            }
        },
        None => None,
    }
}

/// The name of the release asset that holds the compiler for `target`.
pub open spec fn rust_asset_name(target: Seq<char>) -> Seq<char> {
    "rust-toolchain-"@ + target + ".tar.gz"@
}

/// What to download for a prebuilt toolchain, and where to put it.
#[derive(Clone, Debug, PartialEq, Eq)]
pub struct PrebuiltToolchain {
    /// The directory of this toolchain: it is emptied before the download.
    pub toolchain_dir: String,
    /// Where the sysroots are downloaded from.
    pub sysroot_url: String,
    /// The directory that the sysroots are unpacked into.
    pub sysroot_dir: String,
    /// Where the compiler is downloaded from.
    pub rust_url: String,
    /// The directory that the compiler is unpacked into: the one to register.
    pub rust_dir: String,
    /// The two directories whose files are made executable.
    pub bin_dir: String,
    pub target_bin_dir: String,
}

/// The directory of the prebuilt toolchain for `target` of the release
/// `tag`, under `root`.
pub open spec fn prebuilt_dir_spec(root: Seq<char>, target: Seq<char>, tag: Seq<char>) -> Seq<
    char,
> {
    join_spec(root, target + "_"@ + tag)
}

/// What `download_toolchain` returns for a release that has both assets.
pub open spec fn prebuilt_matches(
    p: PrebuiltToolchain,
    target: Seq<char>,
    root: Seq<char>,
    release: GithubReleaseData,
) -> bool {
    let dir = prebuilt_dir_spec(root, target, release.tag_name@);
    &&& p.toolchain_dir@ == dir
    &&& Some(p.sysroot_url@) == asset_url(release.assets@, "wasix-libc.tar.gz"@)
    &&& p.sysroot_dir@ == join_spec(dir, "sysroot"@)
    &&& Some(p.rust_url@) == asset_url(release.assets@, rust_asset_name(target))
    &&& p.rust_dir@ == join_spec(dir, "rust"@)
    &&& p.bin_dir@ == join_spec(join_spec(dir, "rust"@), "bin"@)
    &&& p.target_bin_dir@ == join_spec(
        join_spec(dir, "rust"@),
        "lib/rustlib/"@ + target + "/bin"@,
    )
}

/// The message for a release without the compiler for `target`.
pub open spec fn no_toolchain_asset(tag: Seq<char>, target: Seq<char>) -> Seq<char> {
    "Release "@ + tag + " does not have a prebuilt toolchain for host "@ + target
}

/// The message for a release without the sysroots.
pub open spec fn no_sysroot_asset(tag: Seq<char>) -> Seq<char> {
    "Release "@ + tag + " does not have the sysroot asset"@
}

/// What to download of `release` for a prebuilt toolchain for the host
/// `target`, and where to put it under `toolchains_root_dir`. The release
/// must hold the compiler for the host and the sysroots; the compiler is
/// looked for first.
pub fn download_toolchain(target: &str, toolchains_root_dir: &str, release: &GithubReleaseData) -> (r:
    Result<PrebuiltToolchain, Error>)
    ensures
        r is Ok <==> asset_url(release.assets@, rust_asset_name(target@)) is Some && asset_url(
            release.assets@,
            "wasix-libc.tar.gz"@,
        ) is Some,
        r matches Ok(p) ==> prebuilt_matches(p, target@, toolchains_root_dir@, *release),
        r matches Err(e) ==> e.kind is Configuration && e.context@.len() == 0 && e.message@
            == if asset_url(release.assets@, rust_asset_name(target@)) is None {
            no_toolchain_asset(release.tag_name@, target@)
        } else {
            no_sysroot_asset(release.tag_name@)
        },
{
    let rust_name = cat3("rust-toolchain-", target, ".tar.gz");
    let rust_url = match find_asset(&release.assets, rust_name.as_str()) {
        Some(u) => u,
        None => {
            let mut msg = cat3(
                "Release ",
                release.tag_name.as_str(),
                " does not have a prebuilt toolchain for host ",
            );
            msg.append(target);
            return Err(Error::configuration(msg));
        },
    };
    let sysroot_url = match find_asset(&release.assets, "wasix-libc.tar.gz") {
        Some(u) => u,
        None => {
            return Err(
                Error::configuration(
                    cat3(
                        "Release ",
                        release.tag_name.as_str(),
                        " does not have the sysroot asset",
                    ),
                ),
            );
        },
    };
    let dir_name = cat3(target, "_", release.tag_name.as_str());
    let toolchain_dir = join(toolchains_root_dir, dir_name.as_str());
    let sysroot_dir = join(toolchain_dir.as_str(), "sysroot");
    let rust_dir = join(toolchain_dir.as_str(), "rust");
    let bin_dir = join(rust_dir.as_str(), "bin");
    let target_bin = cat3("lib/rustlib/", target, "/bin");
    let target_bin_dir = join(rust_dir.as_str(), target_bin.as_str());
    Ok(
        PrebuiltToolchain {
            toolchain_dir,
            sysroot_url,
            sysroot_dir,
            rust_url,
            rust_dir,
            bin_dir,
            target_bin_dir,
        },
    )
}

/// The steps that lift the sysroots out of the directory `wasix-libc` that
/// the archive wraps them in, for the case that this directory is there.
pub open spec fn unwrap_sysroot_plan(sysroot_dir: Seq<char>) -> Seq<PlanStepView> {
    let wrapper = join_spec(sysroot_dir, "wasix-libc"@);
    seq![
        within(
            StepView::Rename {
                from: join_spec(wrapper, "sysroot32"@),
                to: join_spec(sysroot_dir, "sysroot32"@),
            },
            "Invalid/missing libc sysroot directory"@,
        ),
        within(
            StepView::Rename {
                from: join_spec(wrapper, "sysroot64"@),
                to: join_spec(sysroot_dir, "sysroot64"@),
            },
            "Invalid/missing libc sysroot directory"@,
        ),
        within(StepView::RemoveDirAll(wrapper), "Could not delete intermediate directory"@),
    ]
}

/// The directory that the archive of the sysroots wraps them in.
pub fn sysroot_wrapper(sysroot_dir: &str) -> (p: String)
    ensures
        p@ == join_spec(sysroot_dir@, "wasix-libc"@),
{
    join(sysroot_dir, "wasix-libc")
}

/// The steps that lift the sysroots out of their wrapping directory.
pub fn unwrap_sysroot(sysroot_dir: &str) -> (plan: Vec<PlanStep>)
    ensures
        plan_view(plan@) == unwrap_sysroot_plan(sysroot_dir@),
{
    let wrapper = sysroot_wrapper(sysroot_dir);
    let mut plan: Vec<PlanStep> = Vec::new();
    assert(plan_view(plan@) =~= Seq::empty());
    push_step_within(
        &mut plan,
        Step::Rename {
            from: join(wrapper.as_str(), "sysroot32"),
            to: join(sysroot_dir, "sysroot32"),
        },
        "Invalid/missing libc sysroot directory".to_owned(),
    );
    push_step_within(
        &mut plan,
        Step::Rename {
            from: join(wrapper.as_str(), "sysroot64"),
            to: join(sysroot_dir, "sysroot64"),
        },
        "Invalid/missing libc sysroot directory".to_owned(),
    );
    push_step_within(
        &mut plan,
        Step::RemoveDirAll(wrapper),
        "Could not delete intermediate directory".to_owned(),
    );
    assert(plan_view(plan@) =~= unwrap_sysroot_plan(sysroot_dir@));
    plan
}

/// The host to download a prebuilt toolchain for, on a machine of
/// architecture `arch` under the operating system `os`; a failure where
/// none is offered for such a machine.
pub fn install_prebuilt_toolchain(arch: &str, os: &str) -> (r: Result<&'static str, Error>)
    ensures
        match r {
            Ok(host) => host_target_spec(arch@, os@) == Some(host@),
            Err(e) => host_target_spec(arch@, os@) is None && e.kind is Configuration
                && e.context@.len() == 0 && e.message@
                == "The WASIX toolchain is not available for download on this platform. Build it yourself with: 'cargo wasix build-toolchain'"@,
        },
{
    match guess_host_target(arch, os) {
        Some(host) => Ok(host),
        None => Err(
            Error::configuration(
                "The WASIX toolchain is not available for download on this platform. Build it yourself with: 'cargo wasix build-toolchain'".to_owned(),
            ),
        ),
    }
}

/// The command that asks the compiler of the toolchain `name` for its
/// sysroot.
pub fn sysroot_query(name: &str, windows: bool) -> (c: CommandLine)
    ensures
        c@ == plain(
            if windows {
                "rustc.exe"@
            } else {
                "rustc"@
            },
            seq!["+"@ + name@, "--print"@, "sysroot"@],
        ),
{
    let c = CommandLine::new(rustc_name(windows)).arg(cat2("+", name).as_str()).arg(
        "--print",
    ).arg("sysroot");
    assert(c@.args =~= seq!["+"@ + name@, "--print"@, "sysroot"@]);
    c
}

/// The directory of a sysroot that holds the libraries of a width.
pub open spec fn lib_dir_spec(sysroot: Seq<char>, is64bit: bool) -> Seq<char> {
    join_spec(
        sysroot,
        if is64bit {
            "lib/rustlib/wasm64-wasmer-wasi"@
        } else {
            "lib/rustlib/wasm32-wasmer-wasi"@
        },
    )
}

/// The directory that must exist in the sysroot that the compiler reports,
/// `reported` being what the compiler printed.
pub fn lib_dir(reported: &str, is64bit: bool) -> (p: String)
    ensures
        p@ == lib_dir_spec(trim_spec(reported@), is64bit),
{
    let sysroot = trim(reported);
    join(
        sysroot.as_str(),
        if is64bit {
            "lib/rustlib/wasm64-wasmer-wasi"
        } else {
            "lib/rustlib/wasm32-wasmer-wasi"
        },
    )
}

/// Whether a toolchain is valid: the sysroot that its compiler reports is
/// the registered path, and the libraries of the width are there. The two
/// paths are compared by their components, as this library reads paths: with
/// `/` between the components, on every system.
pub open spec fn toolchain_valid(path: Seq<char>, reported: Seq<char>, lib_dir_exists: bool)
    -> bool {
    same_path_spec(path, trim_spec(reported)) && lib_dir_exists
}

/// The start of every message about an invalid toolchain.
pub open spec fn invalid_toolchain(name: Seq<char>, path: Seq<char>) -> Seq<char> {
    "Invalid wasix rustup toolchain "@ + name + " at "@ + path + ": "@
}

/// The message for a toolchain that fails the check.
pub open spec fn validation_fault(
    name: Seq<char>,
    path: Seq<char>,
    reported: Seq<char>,
    is64bit: bool,
) -> Seq<char> {
    if !same_path_spec(path, trim_spec(reported)) {
        invalid_toolchain(name, path) + "the compiler reports the sysroot "@ + trim_spec(reported)
    } else {
        invalid_toolchain(name, path) + lib_dir_spec(trim_spec(reported), is64bit)
            + " does not exist"@
    }
}

/// Checks a registered toolchain. `reported` is what its compiler printed
/// when asked for the sysroot; `lib_dir_exists` says whether the directory
/// that `lib_dir` names is there.
pub fn validate_toolchain(
    toolchain: &RustupToolchain,
    reported: &str,
    is64bit: bool,
    lib_dir_exists: bool,
) -> (r: Result<(), Error>)
    ensures
        r is Ok <==> toolchain_valid(toolchain.path@, reported@, lib_dir_exists),
        r matches Err(e) ==> e.kind is Validation && e.context@.len() == 0 && e.message@
            == validation_fault(toolchain.name@, toolchain.path@, reported@, is64bit),
{
    let sysroot = trim(reported);
    let mut msg = "Invalid wasix rustup toolchain ".to_owned();
    msg.append(toolchain.name.as_str());
    msg.append(" at ");
    msg.append(toolchain.path.as_str());
    msg.append(": ");
    if !same_path(toolchain.path.as_str(), sysroot.as_str()) {
        msg.append("the compiler reports the sysroot ");
        msg.append(sysroot.as_str());
        return Err(Error::validation(msg));
    }
    if !lib_dir_exists {
        let dir = lib_dir(reported, is64bit);
        msg.append(dir.as_str());
        msg.append(" does not exist");
        return Err(Error::validation(msg));
    }
    Ok(())
}

} // verus!
