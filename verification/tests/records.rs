use cargo_wasix::records::{
    execute_cargo, is_record_line, manifest_path, metadata_command, parse_failure,
    wasm_bindgen_version, CargoBuild, CargoMessage, ManifestConfig, Profile,
};

fn owned(items: &[&str]) -> Vec<String> {
    items.iter().map(|s| s.to_string()).collect()
}

fn profile(opt_level: &str, debuginfo: Option<u32>) -> Profile {
    Profile { opt_level: opt_level.to_string(), debuginfo, test: false }
}

fn artifact(files: &[&str], package_id: &str, fresh: bool) -> CargoMessage {
    CargoMessage::CompilerArtifact {
        filenames: owned(files),
        package_id: package_id.to_string(),
        profile: profile("0", Some(2)),
        fresh,
    }
}

#[test]
fn records_start_with_a_brace() {
    assert!(is_record_line("{\"reason\":\"build-finished\"}"));
    assert!(is_record_line("{"));
    assert!(!is_record_line(""));
    assert!(!is_record_line(" {\"reason\":1}"));
    assert!(!is_record_line("   Compiling foo v0.1.0"));
}

#[test]
fn only_binaries_of_the_target_are_kept() {
    let mut build = CargoBuild::new();
    build.record(&artifact(
        &["/t/debug/libfoo.rlib", "/t/debug/foo.wasm", "/t/debug/foo.d", "/t/debug/bar.wasm", "/t/wasm"],
        "foo 0.1.0 (path+file:///p)",
        true,
    ));
    assert_eq!(
        build.wasms,
        vec![
            ("/t/debug/foo.wasm".to_string(), profile("0", Some(2)), true),
            ("/t/debug/bar.wasm".to_string(), profile("0", Some(2)), true),
        ]
    );
    assert_eq!(build.wasm_bindgen, None);
    assert!(build.runs.is_empty());
}

#[test]
fn the_records_of_a_build_add_up_in_order() {
    let messages = vec![
        CargoMessage::BuildScriptExecuted,
        artifact(&["/t/a.wasm"], "wasm-bindgen 0.2.84 (registry+https://x)", false),
        CargoMessage::RunWithArgs { args: owned(&["/t/a.wasm", "x"]) },
        artifact(&["/t/b.wasm", "/t/b.js"], "b 1.0.0 (path+file:///b)", true),
        CargoMessage::RunWithArgs { args: owned(&["/t/b.wasm"]) },
        CargoMessage::BuildFinished,
    ];
    let build = execute_cargo(&messages);
    assert_eq!(build.wasm_bindgen, Some("0.2.84".to_string()));
    assert_eq!(
        build.wasms,
        vec![
            ("/t/a.wasm".to_string(), profile("0", Some(2)), false),
            ("/t/b.wasm".to_string(), profile("0", Some(2)), true),
        ]
    );
    assert_eq!(build.runs, vec![owned(&["/t/a.wasm", "x"]), owned(&["/t/b.wasm"])]);
    assert_eq!(build.manifest_config, ManifestConfig::default());
    assert_eq!(execute_cargo(&vec![]), CargoBuild::new());
}

#[test]
fn the_version_of_wasm_bindgen_is_the_second_word() {
    assert_eq!(wasm_bindgen_version("wasm-bindgen 0.2.84 (registry)"), Some("0.2.84".to_string()));
    assert_eq!(wasm_bindgen_version("  wasm-bindgen\t1"), Some("1".to_string()));
    assert_eq!(wasm_bindgen_version("wasm-bindgen"), None);
    assert_eq!(wasm_bindgen_version("wasm-bindgen-macro 0.2.84"), None);
    assert_eq!(wasm_bindgen_version(""), None);
}

#[test]
fn sections_are_kept_unless_the_manifest_says_no() {
    let mut build = CargoBuild::new();
    assert!(build.enable_name_section(&profile("3", None)));
    assert!(build.enable_producers_section(&profile("3", None)));
    build.configure(Some(ManifestConfig {
        wasm_opt: None,
        wasm_name_section: Some(false),
        wasm_producers_section: Some(true),
    }));
    assert!(!build.enable_name_section(&profile("3", None)));
    assert!(build.enable_name_section(&profile("3", Some(0))));
    assert!(build.enable_producers_section(&profile("3", None)));
    build.configure(None);
    assert_eq!(build.manifest_config.wasm_name_section, Some(false));
    build.configure(Some(ManifestConfig {
        wasm_opt: None,
        wasm_name_section: None,
        wasm_producers_section: Some(false),
    }));
    assert!(build.enable_name_section(&profile("3", None)));
    assert!(!build.enable_producers_section(&profile("3", None)));
    assert!(build.enable_producers_section(&profile("0", Some(1))));
}

#[test]
fn a_record_that_cannot_be_decoded_is_a_failure() {
    let e = parse_failure("{\"reason\":", "EOF while parsing a value at line 1 column 10");
    assert_eq!(e.kind, cargo_wasix::error::ErrorKind::Parse);
    assert_eq!(
        e.message,
        "failed to parse {\"reason\":: EOF while parsing a value at line 1 column 10"
    );
}

#[test]
fn the_manifest_is_found_through_the_workspace_root() {
    let c = metadata_command();
    assert_eq!(c.program, "cargo");
    assert_eq!(c.args, owned(&["metadata", "--no-deps", "--format-version=1"]));
    assert_eq!(manifest_path("/w"), "/w/Cargo.toml");
}

#[test]
fn a_decoded_line_is_taken_in_and_a_broken_one_ends_the_build() {
    let mut build = CargoBuild::new();
    assert_eq!(build.decoded("{...}", Ok(artifact(&["/t/a.wasm"], "a 1.0.0", false))), Ok(()));
    assert_eq!(build.wasms.len(), 1);
    let before = build.clone();
    let e = build.decoded("{\"reason\":\"x\"}", Err("unknown variant `x`".to_string())).unwrap_err();
    assert_eq!(e.kind, cargo_wasix::error::ErrorKind::Parse);
    assert_eq!(e.message, "failed to parse {\"reason\":\"x\"}: unknown variant `x`");
    assert_eq!(build, before);
}
