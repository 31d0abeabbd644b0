use cargo_wasix::path::{
    components, ends_with, extension, file_name, join, parent, same_path, with_extension,
};
use std::path::Path;

const SAMPLES: [&str; 34] = [
    "",
    "/",
    ".",
    "..",
    "./",
    "/.",
    "//",
    "a",
    "a/",
    "a/.",
    "a/..",
    "a/b",
    "a//b",
    "a/./b",
    "/a",
    "/a/b/",
    "./a",
    "./a/./b//",
    "../a",
    "a/../b",
    ".hidden",
    "a/.hidden",
    "foo.wasm",
    "dir/foo.wasm",
    "dir/foo.wasm/",
    "dir/foo.wasm/.",
    "dir.d/foo",
    "foo.tar.gz",
    "foo.",
    "...",
    "a/b.c/..",
    "/target/wasm32-wasmer-wasi/debug/foo.wasm",
    "bin/wasm-opt",
    ".a.b",
];

fn text(p: &Path) -> String {
    p.to_str().unwrap().to_string()
}

#[test]
fn file_names_agree_with_the_standard_library() {
    for p in SAMPLES {
        let want = Path::new(p).file_name().map(|n| n.to_str().unwrap().to_string());
        assert_eq!(file_name(p), want, "{:?}", p);
    }
}

#[test]
fn extensions_agree_with_the_standard_library() {
    for p in SAMPLES {
        let want = Path::new(p).extension().map(|n| n.to_str().unwrap().to_string());
        assert_eq!(extension(p), want, "{:?}", p);
    }
    assert_eq!(extension("dir/foo.wasm"), Some("wasm".to_string()));
    assert_eq!(extension("dir/.wasm"), None);
}

#[test]
fn extensions_are_replaced_as_in_the_standard_library() {
    for p in SAMPLES {
        for ext in ["rustc.wasm", "wasi.wasm", "", "x"] {
            let want = text(&Path::new(p).with_extension(ext));
            assert_eq!(with_extension(p, ext), want, "{:?} {:?}", p, ext);
        }
    }
    assert_eq!(with_extension("dir/foo.wasm", "rustc.wasm"), "dir/foo.rustc.wasm");
}

#[test]
fn parents_agree_with_the_standard_library() {
    for p in SAMPLES {
        let want = Path::new(p).parent().map(text);
        assert_eq!(parent(p), want, "{:?}", p);
    }
    assert_eq!(parent("/a/b"), Some("/a".to_string()));
    assert_eq!(parent("/"), None);
}

#[test]
fn joins_agree_with_the_standard_library() {
    for a in SAMPLES {
        for b in SAMPLES {
            let want = text(&Path::new(a).join(b));
            assert_eq!(join(a, b), want, "{:?} {:?}", a, b);
        }
    }
    assert_eq!(join("/cache", "downloading"), "/cache/downloading");
    assert_eq!(join("/cache/", "/abs"), "/abs");
}

#[test]
fn components_agree_with_the_standard_library() {
    for p in SAMPLES {
        let want: Vec<String> =
            Path::new(p).components().map(|c| c.as_os_str().to_str().unwrap().to_string()).collect();
        assert_eq!(components(p), want, "{:?}", p);
    }
}

#[test]
fn suffixes_and_equality_agree_with_the_standard_library() {
    for a in SAMPLES {
        for b in SAMPLES {
            assert_eq!(ends_with(a, b), Path::new(a).ends_with(b), "{:?} {:?}", a, b);
            assert_eq!(same_path(a, b), Path::new(a) == Path::new(b), "{:?} {:?}", a, b);
        }
    }
    assert!(ends_with("binaryen-version_109/bin/wasm-opt", "bin/wasm-opt"));
    assert!(!ends_with("binaryen-version_109/sbin/wasm-opt", "bin/wasm-opt"));
    assert!(!ends_with("x/mybin/wasm-opt", "bin/wasm-opt"));
    assert!(same_path("/a/b/", "/a//b"));
}

/// Every text of up to `len` characters out of `alphabet`.
fn all_texts(alphabet: &[char], len: usize) -> Vec<String> {
    let mut out = vec![String::new()];
    let mut last = vec![String::new()];
    for _ in 0..len {
        let mut next = vec![];
        for text in &last {
            for c in alphabet {
                let mut longer = text.clone();
                longer.push(*c);
                next.push(longer);
            }
        }
        out.extend(next.iter().cloned());
        last = next;
    }
    out
}

#[test]
fn every_short_path_is_read_as_the_standard_library_reads_it() {
    for p in all_texts(&['/', '.', 'a', 'b'], 6) {
        let path = Path::new(&p);
        let want: Vec<String> =
            path.components().map(|c| c.as_os_str().to_str().unwrap().to_string()).collect();
        assert_eq!(components(&p), want, "{:?}", p);
        assert_eq!(file_name(&p), path.file_name().map(|n| n.to_str().unwrap().to_string()), "{:?}", p);
        assert_eq!(extension(&p), path.extension().map(|n| n.to_str().unwrap().to_string()), "{:?}", p);
        assert_eq!(parent(&p), path.parent().map(text), "{:?}", p);
        // A file name of two dots and an extension is left out: once the
        // extension is gone the standard library takes what is left for
        // the parent directory.
        let name = file_name(&p).unwrap_or_default();
        if name.starts_with("..") && !name[2..].contains('.') {
            continue;
        }
        assert_eq!(with_extension(&p, "wasi.wasm"), text(&path.with_extension("wasi.wasm")), "{:?}", p);
        assert_eq!(with_extension(&p, ""), text(&path.with_extension("")), "{:?}", p);
    }
}

#[test]
fn an_extension_after_two_dots_is_replaced_like_any_other() {
    assert_eq!(extension("..a"), Some("a".to_string()));
    assert_eq!(with_extension("..a", "wasm"), "..wasm");
    assert_eq!(with_extension("d/..a", ""), "d/.");
}

#[test]
fn every_pair_of_short_paths_is_joined_and_compared_as_in_the_standard_library() {
    let all = all_texts(&['/', '.', 'a'], 4);
    for a in &all {
        for b in &all {
            assert_eq!(join(a, b), text(&Path::new(a).join(b)), "{:?} {:?}", a, b);
            assert_eq!(ends_with(a, b), Path::new(a).ends_with(b), "{:?} {:?}", a, b);
            assert_eq!(same_path(a, b), Path::new(a) == Path::new(b), "{:?} {:?}", a, b);
        }
    }
}
