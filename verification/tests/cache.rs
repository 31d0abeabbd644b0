use cargo_wasix::cache::Cache;

#[test]
fn the_cache_is_in_the_cache_directory() {
    let c = Cache::new(Some("/home/u/.cache"), Some("/home/u"), "0.1.11").unwrap();
    assert_eq!(c.all_versions_root(), "/home/u/.cache/cargo-wasix");
    assert_eq!(c.root(), "/home/u/.cache/cargo-wasix/0.1.11");
}

#[test]
fn without_a_cache_directory_the_cache_is_in_the_home_directory() {
    let c = Cache::new(None, Some("/home/u"), "0.1.11").unwrap();
    assert_eq!(c.all_versions_root(), "/home/u/.cargo-wasi");
    assert_eq!(c.root(), "/home/u/.cargo-wasi/0.1.11");
}

#[test]
fn without_either_there_is_no_cache() {
    let e = Cache::new(None, None, "0.1.11").unwrap_err();
    assert_eq!(e.message, "failed to find home directory, is $HOME set?");
    assert_eq!(e.kind, cargo_wasix::error::ErrorKind::Configuration);
}
