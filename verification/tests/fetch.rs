use cargo_wasix::fetch::{
    all_present, check_extracted, check_response, download, download_lock, entry_targets, get,
    install_wasm_opt, BINARYEN_TAG,
};

fn owned(items: &[&str]) -> Vec<String> {
    items.iter().map(|s| s.to_string()).collect()
}

#[test]
fn nothing_is_fetched_when_all_is_there() {
    assert_eq!(download("https://x/a.tar.gz", "a", &vec![true, true]), None);
    assert_eq!(download("https://x/a.tar.gz", "a", &vec![]), None);
    let f = download("https://x/a.tar.gz", "a tool", &vec![true, false]).unwrap();
    assert_eq!(f.url, "https://x/a.tar.gz");
    assert_eq!(f.name, "a tool");
    assert_eq!(f.context, "failed to extract tarball from https://x/a.tar.gz");
    assert!(all_present(&vec![true, true, true]));
    assert!(!all_present(&vec![true, false, true]));
    assert_eq!(download_lock("/c/0.1.0"), "/c/0.1.0/downloading");
}

#[test]
fn two_invocations_download_once() {
    // What is there is looked at under the lock, so the second invocation
    // sees what the first unpacked.
    let subs = owned(&["bin/wasm-opt", "lib/libbinaryen.so"]);
    let archive = ["binaryen-version_109/", "binaryen-version_109/bin/wasm-opt", "binaryen-version_109/lib/libbinaryen.so", "binaryen-version_109/bin/wasm2js"];
    let mut cache: Vec<String> = vec![];
    let mut downloads = 0;
    for _ in 0..2 {
        let present: Vec<bool> = subs.iter().map(|s| cache.contains(&format!("/c/{}", s))).collect();
        if download("https://x", "x", &present).is_some() {
            downloads += 1;
            for entry in archive {
                cache.extend(entry_targets(entry, "/c", &subs));
            }
            let present: Vec<bool> = subs.iter().map(|s| cache.contains(&format!("/c/{}", s))).collect();
            assert_eq!(check_extracted(&subs, &present), Ok(()));
        }
    }
    assert_eq!(downloads, 1);
    assert_eq!(cache, owned(&["/c/bin/wasm-opt", "/c/lib/libbinaryen.so"]));
}

#[test]
fn an_entry_is_unpacked_where_its_path_ends_with_a_file() {
    let subs = owned(&["bin/wasm-opt", "wasm-opt", "bin/other"]);
    assert_eq!(
        entry_targets("binaryen/bin/wasm-opt", "/c", &subs),
        owned(&["/c/bin/wasm-opt", "/c/wasm-opt"])
    );
    assert_eq!(entry_targets("binaryen/sbin/wasm-opt", "/c", &subs), owned(&["/c/wasm-opt"]));
    assert_eq!(entry_targets("binaryen/bin/wasm-opt2", "/c", &subs), owned(&[]));
    assert_eq!(entry_targets("bin/wasm-opt", "/c", &vec![]), owned(&[]));
}

#[test]
fn the_first_missing_file_is_named() {
    let subs = owned(&["bin/a", "bin/\"b\"", "bin/c"]);
    assert_eq!(check_extracted(&subs, &vec![true, true, true]), Ok(()));
    let e = check_extracted(&subs, &vec![true, false, false]).unwrap_err();
    assert_eq!(e.message, "failed to find \"bin/\\\"b\\\"\" in archive");
    // A file that nothing is said of counts as missing.
    let e = check_extracted(&subs, &vec![true, true]).unwrap_err();
    assert_eq!(e.message, "failed to find \"bin/c\" in archive");
    assert_eq!(check_extracted(&vec![], &vec![false]), Ok(()));
    let e = check_extracted(&subs, &vec![false, true, true]).unwrap_err();
    assert_eq!(e.message, "failed to find \"bin/a\" in archive");
    assert_eq!(e.message, format!("failed to find {:?} in archive", std::path::Path::new("bin/a")));
}

#[test]
fn the_optimizer_is_fetched_for_the_platform() {
    for (os, arch, platform) in [
        ("linux", "x86_64", "x86_64-linux"),
        ("macos", "x86_64", "x86_64-macos"),
        ("macos", "aarch64", "arm64-macos"),
        ("windows", "x86_64", "x86_64-windows"),
    ] {
        let f = install_wasm_opt(os, arch, &vec![false]).unwrap().unwrap();
        assert_eq!(
            f.url,
            format!(
                "https://github.com/WebAssembly/binaryen/releases/download/version_109/binaryen-version_109-{}.tar.gz",
                platform
            )
        );
        assert_eq!(f.name, "precompiled wasm-opt version_109");
        assert_eq!(f.context, format!("failed to extract tarball from {}", f.url));
        assert_eq!(install_wasm_opt(os, arch, &vec![true]), Ok(None));
    }
    assert_eq!(BINARYEN_TAG, "version_109");
    let e = install_wasm_opt("linux", "aarch64", &vec![true]).unwrap_err();
    assert_eq!(
        e.message,
        "no precompiled binaries of `wasm-opt` are available for this platform, you'll want to set `$WASM_OPT` to a preinstalled `wasm-opt` command or disable via `wasm-opt = false` in your manifest"
    );
}

#[test]
fn a_request_and_its_answer() {
    let r = get("https://x/y", "0.1.11", 30, Some("http://proxy".to_string()));
    assert_eq!(r.url, "https://x/y");
    assert_eq!(r.user_agent, "cargo-wasix/v0.1.11");
    assert_eq!(r.connect_timeout, 10);
    assert_eq!(r.timeout, 30);
    assert_eq!(r.proxy, Some("http://proxy".to_string()));
    assert_eq!(check_response("https://x/y", 200, "200 OK"), Ok(()));
    assert_eq!(check_response("https://x/y", 299, "299"), Ok(()));
    for code in [199, 300, 404, 500] {
        let e = check_response("https://x/y", code, "404 Not Found").unwrap_err();
        assert_eq!(e.kind, cargo_wasix::error::ErrorKind::Network);
        assert_eq!(e.message, "failed to get successful response from https://x/y: 404 Not Found");
    }
}
