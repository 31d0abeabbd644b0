use cargo_wasix::error::ErrorKind;
use cargo_wasix::plan::Step;
use cargo_wasix::toolchain::{
    authorization, download_toolchain, ensure_libc_dir_valid, guess_host_target,
    install_prebuilt_toolchain, lib_dir, libc_archive, libc_sysroot, release_url, rustc_path,
    sysroot_query, unwrap_sysroot, validate_toolchain, BuildToochainOptions, GithubAsset,
    GithubReleaseData, LibcDirProbe, RustupToolchain, LIBC_REPO, RUSTUP_TOOLCHAIN_NAME,
    RUST_BRANCH, RUST_REPO,
};

fn owned(items: &[&str]) -> Vec<String> {
    items.iter().map(|s| s.to_string()).collect()
}

fn asset(name: &str, url: &str) -> GithubAsset {
    GithubAsset { browser_download_url: url.to_string(), name: name.to_string() }
}

fn release() -> GithubReleaseData {
    GithubReleaseData {
        assets: vec![
            asset("rust-toolchain-aarch64-apple-darwin.tar.gz", "https://dl/arm"),
            asset("wasix-libc.tar.gz", "https://dl/libc"),
            asset("rust-toolchain-x86_64-unknown-linux-gnu.tar.gz", "https://dl/linux"),
            asset("rust-toolchain-x86_64-unknown-linux-gnu.tar.gz", "https://dl/linux-again"),
        ],
        tag_name: "v2023-01-01.1".to_string(),
    }
}

#[test]
fn the_components_variable_selects_what_is_built() {
    for (value, libc, rust) in [
        (None, true, true),
        (Some(""), true, true),
        (Some("all"), true, true),
        (Some("libc"), true, false),
        (Some("rust"), false, true),
    ] {
        let o = BuildToochainOptions::from_env(value, Some("/b"), None, None, false).unwrap();
        assert_eq!((o.build_libc, o.build_rust), (libc, rust), "{:?}", value);
        assert_eq!(o.root, "/b");
        assert!(o.update_repos);
        assert_eq!(o.rust_host_triple, None);
    }
    let e = BuildToochainOptions::from_env(Some("ALL"), Some("/b"), None, None, false).unwrap_err();
    assert_eq!(
        e.message,
        "Invalid env var WASIX_COMPONENTS with value 'ALL' - expected 'all' or 'libc'"
    );
    assert_eq!(e.kind, ErrorKind::Configuration);
}

#[test]
fn the_build_root_defaults_to_the_home_directory() {
    let o = BuildToochainOptions::from_env(None, None, Some("/home/u"), Some("x86_64-h"), true)
        .unwrap();
    assert_eq!(o.root, "/home/u/.wasix");
    assert_eq!(o.rust_host_triple, Some("x86_64-h".to_string()));
    assert!(!o.update_repos);
    let o = BuildToochainOptions::from_env(None, Some("/b"), Some("/home/u"), None, false).unwrap();
    assert_eq!(o.root, "/b");
    let e = BuildToochainOptions::from_env(None, None, None, None, false).unwrap_err();
    assert_eq!(e.message, "Could not determine home dir. set WASIX_BUILD_DIR env var!");
    // The components are looked at first.
    let e = BuildToochainOptions::from_env(Some("x"), None, None, None, false).unwrap_err();
    assert_eq!(
        e.message,
        "Invalid env var WASIX_COMPONENTS with value 'x' - expected 'all' or 'libc'"
    );
}

#[test]
fn the_first_missing_part_of_the_c_library_is_named() {
    let all = LibcDirProbe { dir32: true, archive32: true, dir64: true, archive64: true };
    assert_eq!(ensure_libc_dir_valid("/r/wasix-libc", &all), Ok(()));
    let cases = [
        (
            LibcDirProbe { dir32: false, archive32: false, dir64: false, archive64: false },
            "Invalid libc dir: directory does not exit: '/r/wasix-libc/sysroot32'",
        ),
        (
            LibcDirProbe { archive32: false, dir64: false, ..all.clone() },
            "Invalid libc dir: archive does not exit: '/r/wasix-libc/sysroot32/lib/wasm32-wasi/libc.a'",
        ),
        (
            LibcDirProbe { dir64: false, archive64: false, ..all.clone() },
            "Invalid libc dir: directory does not exit: '/r/wasix-libc/sysroot64'",
        ),
        (
            LibcDirProbe { archive64: false, ..all.clone() },
            "Invalid libc dir: archive does not exit: '/r/wasix-libc/sysroot64/lib/wasm64-wasi/libc.a'",
        ),
    ];
    for (probe, message) in cases {
        let e = ensure_libc_dir_valid("/r/wasix-libc", &probe).unwrap_err();
        assert_eq!(e.message, message);
        assert_eq!(e.kind, ErrorKind::Validation);
    }
    assert_eq!(libc_sysroot("/d", true), "/d/sysroot64");
    assert_eq!(libc_archive("/d", false), "/d/sysroot32/lib/wasm32-wasi/libc.a");
}

#[test]
fn hosts_with_a_prebuilt_toolchain() {
    assert_eq!(guess_host_target("x86_64", "linux"), Some("x86_64-unknown-linux-gnu"));
    assert_eq!(guess_host_target("x86_64", "macos"), Some("x86_64-apple-darwin"));
    assert_eq!(guess_host_target("aarch64", "macos"), Some("aarch64-apple-darwin"));
    assert_eq!(guess_host_target("x86_64", "windows"), Some("x86_64-pc-windows-msvc"));
    assert_eq!(guess_host_target("aarch64", "linux"), None);
    assert_eq!(guess_host_target("", ""), None);
    assert_eq!(install_prebuilt_toolchain("x86_64", "linux"), Ok("x86_64-unknown-linux-gnu"));
    let e = install_prebuilt_toolchain("riscv64", "linux").unwrap_err();
    assert_eq!(
        e.message,
        "The WASIX toolchain is not available for download on this platform. Build it yourself with: 'cargo wasix build-toolchain'"
    );
}

#[test]
fn the_registered_toolchain_is_found_in_the_list() {
    let listing = "stable-x86_64-unknown-linux-gnu (default)\t/home/u/.rustup/toolchains/stable\nwasix\t/home/u/.cache/wasix/rust  \nwasix2 /other\n";
    let t = RustupToolchain::find_by_name("wasix", listing).unwrap();
    assert_eq!(t.name, "wasix");
    assert_eq!(t.path, "/home/u/.cache/wasix/rust");
    assert_eq!(RustupToolchain::find_by_name("nightly", listing), None);
    assert_eq!(RustupToolchain::find_by_name("wasix", ""), None);
    // The first line that matches decides, also where the name only starts it.
    let t = RustupToolchain::find_by_name("wasix", "wasix2 /other\nwasix /right\n").unwrap();
    assert_eq!(t.path, "2 /other");
    // A line with white space before the name matches and gives nothing.
    assert_eq!(RustupToolchain::find_by_name("wasix", "  wasix /a\nwasix /b\n"), None);
}

#[test]
fn find_by_name_reads_the_list_as_the_standard_library_would() {
    for listing in ["wasix /a", "x\n wasix /a\nwasix /b", "wasix", "a\r\nwasix\t/p\r\n", "wasi /x"] {
        for name in ["wasix", "wasi", "x"] {
            let want = listing
                .lines()
                .find(|line| line.trim().starts_with(name))
                .and_then(|line| line.strip_prefix(name))
                .map(|line| line.trim().to_string());
            let got = RustupToolchain::find_by_name(name, listing).map(|t| t.path);
            assert_eq!(got, want, "{:?} {:?}", name, listing);
        }
    }
}

#[test]
fn a_toolchain_is_registered_after_the_old_registration_is_removed() {
    let plan = RustupToolchain::link("wasix", "/t/rust", false, true, true).unwrap();
    assert_eq!(plan.len(), 2);
    match &plan[0].step {
        Step::Run(c) => {
            assert_eq!(c.program, "rustup");
            assert_eq!(c.args, owned(&["toolchain", "remove", "wasix"]));
            assert!(!c.announce);
        }
        other => panic!("{:?}", other),
    }
    assert_eq!(plan[0].context, Some("Could not remove wasix toolchain".to_string()));
    match &plan[1].step {
        Step::Run(c) => {
            assert_eq!(c.args, owned(&["toolchain", "link", "wasix", "/t/rust"]));
            assert!(c.announce);
        }
        other => panic!("{:?}", other),
    }
    assert_eq!(
        plan[1].context,
        Some("Could not link toolchain: rustup not installed?".to_string())
    );
    let plan = RustupToolchain::link("wasix", "/t/rust", false, true, false).unwrap();
    assert_eq!(plan.len(), 1);
    let e = RustupToolchain::link("wasix", "/t/rust", false, false, true).unwrap_err();
    assert_eq!(
        e.message,
        "Invalid toolchain directory: rustc executable not found at /t/rust/bin/rustc"
    );
    assert_eq!(rustc_path("/t/rust", true), "/t/rust/bin/rustc.exe");
}

#[test]
fn the_sysroot_stands_beside_the_toolchain() {
    let t = RustupToolchain { name: "wasix".to_string(), path: "/c/x86_64_v1/rust".to_string() };
    assert_eq!(t.sysroot_path(false), Some("/c/x86_64_v1/sysroot32".to_string()));
    assert_eq!(t.sysroot_dir(true, true), Some("/c/x86_64_v1/sysroot64".to_string()));
    assert_eq!(t.sysroot_dir(true, false), None);
    let root = RustupToolchain { name: "wasix".to_string(), path: "/".to_string() };
    assert_eq!(root.sysroot_path(false), None);
    assert_eq!(root.sysroot_dir(false, true), None);
}

#[test]
fn test_download_toolchain() {
    let p = download_toolchain("x86_64-unknown-linux-gnu", "/tmp/cargo-wasix/download", &release())
        .unwrap();
    assert_eq!(
        p.toolchain_dir,
        "/tmp/cargo-wasix/download/x86_64-unknown-linux-gnu_v2023-01-01.1"
    );
    assert_eq!(p.rust_url, "https://dl/linux");
    assert_eq!(p.sysroot_url, "https://dl/libc");
    assert_eq!(p.sysroot_dir, format!("{}/sysroot", p.toolchain_dir));
    assert_eq!(p.rust_dir, format!("{}/rust", p.toolchain_dir));
    assert_eq!(p.bin_dir, format!("{}/rust/bin", p.toolchain_dir));
    assert_eq!(
        p.target_bin_dir,
        format!("{}/rust/lib/rustlib/x86_64-unknown-linux-gnu/bin", p.toolchain_dir)
    );
    let exe_name = "rustc";
    assert_eq!(rustc_path(&p.rust_dir, false), format!("{}/bin/{}", p.rust_dir, exe_name));
}

#[test]
fn a_release_without_the_assets_is_refused() {
    let e = download_toolchain("x86_64-pc-windows-msvc", "/t", &release()).unwrap_err();
    assert_eq!(
        e.message,
        "Release v2023-01-01.1 does not have a prebuilt toolchain for host x86_64-pc-windows-msvc"
    );
    let mut r = release();
    r.assets.remove(1);
    let e = download_toolchain("x86_64-unknown-linux-gnu", "/t", &r).unwrap_err();
    assert_eq!(e.message, "Release v2023-01-01.1 does not have the sysroot asset");
    r.assets.clear();
    let e = download_toolchain("x86_64-unknown-linux-gnu", "/t", &r).unwrap_err();
    assert_eq!(
        e.message,
        "Release v2023-01-01.1 does not have a prebuilt toolchain for host x86_64-unknown-linux-gnu"
    );
}

#[test]
fn the_sysroots_are_lifted_out_of_their_wrapper() {
    let plan = unwrap_sysroot("/t/sysroot");
    assert_eq!(plan.len(), 3);
    assert_eq!(
        plan[0].step,
        Step::Rename {
            from: "/t/sysroot/wasix-libc/sysroot32".to_string(),
            to: "/t/sysroot/sysroot32".to_string()
        }
    );
    assert_eq!(
        plan[1].step,
        Step::Rename {
            from: "/t/sysroot/wasix-libc/sysroot64".to_string(),
            to: "/t/sysroot/sysroot64".to_string()
        }
    );
    assert_eq!(plan[1].context, Some("Invalid/missing libc sysroot directory".to_string()));
    assert_eq!(plan[2].step, Step::RemoveDirAll("/t/sysroot/wasix-libc".to_string()));
    assert_eq!(plan[2].context, Some("Could not delete intermediate directory".to_string()));
}

#[test]
fn the_release_address_and_the_token() {
    assert_eq!(release_url(RUST_REPO), "https://api.github.com/repos/wasix-org/rust/releases/latest");
    assert_eq!(RUST_BRANCH, "wasix");
    assert_eq!(RUSTUP_TOOLCHAIN_NAME, "wasix");
    assert_eq!(LIBC_REPO, "https://github.com/wasix-org/wasix-libc.git");
    assert_eq!(authorization(Some(" abc \n")), Some("Bearer abc".to_string()));
    assert_eq!(authorization(Some("  ")), None);
    assert_eq!(authorization(Some("")), None);
    assert_eq!(authorization(None), None);
}

#[test]
fn a_toolchain_is_valid_if_the_compiler_reports_its_path() {
    let t = RustupToolchain { name: "wasix".to_string(), path: "/c/rust".to_string() };
    assert_eq!(validate_toolchain(&t, "/c/rust\n", false, true), Ok(()));
    assert_eq!(validate_toolchain(&t, "/c/rust/\n", true, true), Ok(()));
    let e = validate_toolchain(&t, "/c/other\n", false, true).unwrap_err();
    assert_eq!(e.kind, ErrorKind::Validation);
    assert_eq!(
        e.message,
        "Invalid wasix rustup toolchain wasix at /c/rust: the compiler reports the sysroot /c/other"
    );
    let e = validate_toolchain(&t, "/c/rust\n", true, false).unwrap_err();
    assert_eq!(
        e.message,
        "Invalid wasix rustup toolchain wasix at /c/rust: /c/rust/lib/rustlib/wasm64-wasmer-wasi does not exist"
    );
    assert_eq!(lib_dir(" /c/rust\n", false), "/c/rust/lib/rustlib/wasm32-wasmer-wasi");
    let c = sysroot_query("wasix", false);
    assert_eq!(c.program, "rustc");
    assert_eq!(c.args, owned(&["+wasix", "--print", "sysroot"]));
    assert_eq!(sysroot_query("wasix", true).program, "rustc.exe");
}

#[test]
fn a_resolution_and_a_build_are_started_from_here() {
    let r = cargo_wasix::toolchain::ensure_toolchain(true, false);
    assert_eq!(r.work(), cargo_wasix::resolver::Work::Lookup);
    let o = BuildToochainOptions::from_env(Some("libc"), Some("/b"), None, None, false).unwrap();
    assert_eq!(cargo_wasix::toolchain::build_toolchain(&o, false).len(), 2);
    let step = cargo_wasix::utils::ensure_binary("sudo", &["--version"]);
    assert_eq!(step.context, Some("Could not find or execute binary: sudo".to_string()));
    assert_eq!(cargo_wasix::utils::get("u", "1", 5, None).timeout, 5);
}
