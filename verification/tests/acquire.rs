use cargo_wasix::acquire::{
    run_or_download, wasm_opt_tool, Attempt, Duty, RunFailure, ToolOrigin, ToolPath,
};
use cargo_wasix::error::Error;

fn failure(text: &str) -> Error {
    Error::configuration(text.to_string())
}

fn tool(origin: ToolOrigin) -> ToolPath {
    ToolPath {
        bin_path: "/c/bin/wasm-opt".to_string(),
        origin,
        cache_base: "/c".to_string(),
        sub_paths: vec!["bin/wasm-opt".to_string()],
        cache_bin: "/c/bin/wasm-opt".to_string(),
    }
}

#[test]
fn a_tool_that_runs_is_run_once() {
    let mut a = run_or_download(false);
    assert_eq!(a.duty(), Duty::Run);
    a.ran(Ok(()));
    assert_eq!(a.duty(), Duty::Stop);
    assert_eq!(a.finish(), Some(Ok(())));
}

#[test]
fn an_overridden_missing_tool_fails_at_once() {
    for kind in [RunFailure::NotFound, RunFailure::PermissionDenied, RunFailure::Other] {
        let mut a = run_or_download(true);
        let mut fetches = 0;
        let mut runs = 0;
        while a.duty() != Duty::Stop {
            match a.duty() {
                Duty::Run => {
                    runs += 1;
                    a.ran(Err((kind, failure("first"))));
                }
                Duty::Fetch => {
                    fetches += 1;
                    a.fetched(Ok(()));
                }
                Duty::Stop => unreachable!(),
            }
        }
        assert_eq!((runs, fetches), (1, 0));
        assert_eq!(a.finish(), Some(Err(failure("first"))));
    }
}

#[test]
fn a_missing_tool_is_fetched_once_and_run_again_once() {
    for kind in [RunFailure::NotFound, RunFailure::PermissionDenied] {
        for second in [Ok(()), Err((RunFailure::NotFound, failure("second")))] {
            let mut a = run_or_download(false);
            let mut fetches = 0;
            let mut runs = 0;
            while a.duty() != Duty::Stop {
                match a.duty() {
                    Duty::Run => {
                        runs += 1;
                        if runs == 1 {
                            a.ran(Err((kind, failure("first"))));
                        } else {
                            a.ran(second.clone());
                        }
                    }
                    Duty::Fetch => {
                        fetches += 1;
                        a.fetched(Ok(()));
                    }
                    Duty::Stop => unreachable!(),
                }
            }
            assert_eq!((runs, fetches), (2, 1));
            match second {
                Ok(()) => assert_eq!(a.finish(), Some(Ok(()))),
                Err(_) => assert_eq!(a.finish(), Some(Err(failure("second")))),
            }
        }
    }
}

#[test]
fn another_failure_is_not_a_reason_to_fetch() {
    let mut a = run_or_download(false);
    a.ran(Err((RunFailure::Other, failure("exit status: 1"))));
    assert_eq!(a.state(), Attempt::Failed);
    assert_eq!(a.finish(), Some(Err(failure("exit status: 1"))));
}

#[test]
fn a_failed_fetch_is_the_failure() {
    let mut a = run_or_download(false);
    a.ran(Err((RunFailure::NotFound, failure("first"))));
    assert_eq!(a.duty(), Duty::Fetch);
    a.fetched(Err(failure("no network")));
    assert_eq!(a.duty(), Duty::Stop);
    assert_eq!(a.finish(), Some(Err(failure("no network"))));
    let a = run_or_download(false);
    assert_eq!(a.finish(), None);
}

#[test]
fn every_tool_but_a_named_one_can_be_fetched() {
    for origin in [ToolOrigin::Cache, ToolOrigin::SearchPath] {
        let t = tool(origin);
        assert_eq!(t.bin_path(), "/c/bin/wasm-opt");
        assert!(!t.is_overridden());
        let (base, subs) = t.cache_paths().unwrap();
        assert_eq!(base, "/c");
        assert_eq!(subs, &vec!["bin/wasm-opt".to_string()]);
        assert_eq!(t.retry_path(), "/c/bin/wasm-opt");
    }
    assert!(tool(ToolOrigin::Overridden).is_overridden());
    assert!(tool(ToolOrigin::Overridden).cache_paths().is_none());
}

#[test]
fn a_tool_that_was_found_and_is_gone_is_fetched_into_the_cache() {
    let t = wasm_opt_tool("/c/0.1.0", None, Some("/usr/bin/wasm-opt".to_string()), false, false);
    let mut a = run_or_download(t.is_overridden());
    assert_eq!(a.duty(), Duty::Run);
    assert_eq!(t.bin_path(), "/usr/bin/wasm-opt");
    a.ran(Err((RunFailure::NotFound, failure("gone"))));
    assert_eq!(a.duty(), Duty::Fetch);
    let (base, subs) = t.cache_paths().unwrap();
    assert_eq!(base, "/c/0.1.0/wasm-opt");
    assert_eq!(subs, &vec!["bin/wasm-opt".to_string()]);
    a.fetched(Ok(()));
    assert_eq!(a.duty(), Duty::Run);
    assert_eq!(t.retry_path(), "/c/0.1.0/wasm-opt/bin/wasm-opt");
    a.ran(Ok(()));
    assert_eq!(a.finish(), Some(Ok(())));
}

#[test]
fn the_optimizer_is_the_named_one_or_the_found_one_or_the_cached_one() {
    let t = wasm_opt_tool("/c/0.1.0", Some("/opt/wo".to_string()), Some("/usr/bin/wasm-opt".to_string()), false, false);
    assert_eq!(t.origin, ToolOrigin::Overridden);
    assert_eq!(t.bin_path, "/opt/wo");
    assert_eq!(t.cache_bin, "/c/0.1.0/wasm-opt/bin/wasm-opt");
    assert!(t.is_overridden());
    let t = wasm_opt_tool("/c/0.1.0", None, Some("/usr/bin/wasm-opt".to_string()), false, false);
    assert_eq!(t.origin, ToolOrigin::SearchPath);
    assert_eq!(t.bin_path, "/usr/bin/wasm-opt");
    let t = wasm_opt_tool("/c/0.1.0", None, None, false, true);
    assert_eq!(t.origin, ToolOrigin::Cache);
    assert_eq!(t.bin_path, "/c/0.1.0/wasm-opt/bin/wasm-opt");
    assert_eq!(t.cache_base, "/c/0.1.0/wasm-opt");
    assert_eq!(t.sub_paths, vec!["bin/wasm-opt".to_string(), "lib/libbinaryen.dylib".to_string()]);
    let t = wasm_opt_tool("/c", None, None, true, false);
    assert_eq!(t.bin_path, "/c/wasm-opt/bin/wasm-opt.exe");
    assert_eq!(t.retry_path(), "/c/wasm-opt/bin/wasm-opt.exe");
    assert_eq!(t.sub_paths, vec!["bin/wasm-opt.exe".to_string()]);
}
