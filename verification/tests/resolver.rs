use cargo_wasix::error::{Error, ErrorKind};
use cargo_wasix::resolver::{ensure_toolchain, Phase, Work};
use cargo_wasix::toolchain::RustupToolchain;

fn toolchain(path: &str) -> RustupToolchain {
    RustupToolchain { name: "wasix".to_string(), path: path.to_string() }
}

#[test]
fn a_registered_toolchain_is_only_checked() {
    let mut r = ensure_toolchain(false, false);
    assert_eq!(r.work(), Work::Lookup);
    r.looked_up(Some(toolchain("/c/rust")));
    assert_eq!(r.work(), Work::Validate);
    r.validated(Ok("/c/rust\n".to_string()), true);
    assert_eq!(r.work(), Work::Stop);
    assert_eq!(r.current_phase(), Phase::Done);
    assert_eq!(r.finish(), Some(Ok(toolchain("/c/rust"))));
}

#[test]
fn two_resolutions_acquire_once() {
    // The first finds nothing, downloads and registers.
    let mut works = vec![];
    let mut r = ensure_toolchain(false, true);
    works.push(r.work());
    r.looked_up(None);
    works.push(r.work());
    r.prebuilt(Ok("/c/x86_64_v1".to_string()));
    works.push(r.work());
    assert_eq!(r.link_dir(), Some("/c/x86_64_v1/rust"));
    r.linked("wasix", Ok(()));
    works.push(r.work());
    r.validated(Ok("/c/x86_64_v1/rust/\n".to_string()), true);
    works.push(r.work());
    assert_eq!(
        works,
        vec![Work::Lookup, Work::AcquirePrebuilt, Work::Link, Work::Validate, Work::Stop]
    );
    let first = r.finish().unwrap().unwrap();
    assert_eq!(first, toolchain("/c/x86_64_v1/rust"));
    // The second finds what the first registered.
    let mut works = vec![];
    let mut r = ensure_toolchain(false, true);
    works.push(r.work());
    r.looked_up(Some(first.clone()));
    works.push(r.work());
    r.validated(Ok("/c/x86_64_v1/rust".to_string()), true);
    works.push(r.work());
    assert_eq!(works, vec![Work::Lookup, Work::Validate, Work::Stop]);
    assert_eq!(r.finish(), Some(Ok(first)));
}

#[test]
fn without_network_a_missing_toolchain_is_a_failure() {
    let mut r = ensure_toolchain(true, false);
    r.looked_up(None);
    assert_eq!(r.current_phase(), Phase::Failed);
    assert_eq!(r.work(), Work::Stop);
    let e = r.finish().unwrap().unwrap_err();
    assert_eq!(e.kind, ErrorKind::Configuration);
    assert_eq!(
        e.message,
        "\nCould not detect wasix toolchain, and could not install because CARGO_WASIX_OFFLINE is set.\nRun `cargo wasix build-toolchain if you want to build locally.\nWARNING: building takes a long time!"
    );
}

#[test]
fn a_failed_download_leads_to_a_build_from_source() {
    let mut r = ensure_toolchain(false, false);
    r.looked_up(None);
    r.prebuilt(Err(Error::network("no route".to_string())));
    assert_eq!(r.work(), Work::BuildFromSource);
    r.built(Ok("/b/wasix-rust/build/x/stage2".to_string()));
    assert_eq!(r.work(), Work::Link);
    r.linked("wasix", Ok(()));
    assert_eq!(r.work(), Work::Validate);
    r.validated(Ok("/b/wasix-rust/build/x/stage2\n".to_string()), true);
    assert_eq!(r.finish(), Some(Ok(toolchain("/b/wasix-rust/build/x/stage2"))));
}

#[test]
fn failures_after_the_download_are_final() {
    let mut r = ensure_toolchain(false, false);
    r.looked_up(None);
    r.prebuilt(Err(Error::network("no route".to_string())));
    r.built(Err(Error::validation("no archive".to_string())));
    assert_eq!(r.current_phase(), Phase::Failed);
    assert_eq!(r.finish(), Some(Err(Error::validation("no archive".to_string()))));

    let mut r = ensure_toolchain(false, false);
    r.looked_up(None);
    r.prebuilt(Ok("/c/t".to_string()));
    r.linked("wasix", Err(Error::configuration("no rustup".to_string())));
    assert_eq!(r.finish(), Some(Err(Error::configuration("no rustup".to_string()))));

    let mut r = ensure_toolchain(false, false);
    r.looked_up(Some(toolchain("/c/rust")));
    r.validated(Err(Error::configuration("no rustc".to_string())), false);
    assert_eq!(r.work(), Work::Stop);
    assert_eq!(r.finish(), Some(Err(Error::configuration("no rustc".to_string()))));
}

#[test]
fn a_report_out_of_turn_ends_the_resolution() {
    let mut r = ensure_toolchain(false, false);
    r.validated(Ok("/c/rust".to_string()), true);
    assert_eq!(r.current_phase(), Phase::Failed);
    let e = r.finish().unwrap().unwrap_err();
    assert_eq!(e.message, "the toolchain resolver was told of work that it had not asked for");
    let r = ensure_toolchain(false, false);
    assert_eq!(r.finish(), None);
}

#[test]
fn a_toolchain_that_fails_the_check_is_no_toolchain() {
    // The compiler reports another sysroot.
    let mut r = ensure_toolchain(false, true);
    r.looked_up(Some(toolchain("/c/rust")));
    r.validated(Ok("/c/other\n".to_string()), true);
    assert_eq!(r.current_phase(), Phase::Failed);
    let e = r.finish().unwrap().unwrap_err();
    assert_eq!(e.kind, ErrorKind::Validation);
    assert_eq!(
        e.message,
        "Invalid wasix rustup toolchain wasix at /c/rust: the compiler reports the sysroot /c/other"
    );
    // The libraries of the width are not there.
    let mut r = ensure_toolchain(false, true);
    r.looked_up(Some(toolchain("/c/rust")));
    r.validated(Ok("/c/rust\n".to_string()), false);
    let e = r.finish().unwrap().unwrap_err();
    assert_eq!(
        e.message,
        "Invalid wasix rustup toolchain wasix at /c/rust: /c/rust/lib/rustlib/wasm64-wasmer-wasi does not exist"
    );
}
