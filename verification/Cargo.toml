[package]
name = "cargo_wasix"
version = "0.1.0"
edition = "2021"
publish = false

[dependencies]
anyhow = "1"
cargo_metadata = "*"
dirs = "*"
flate2 = "1"
fs2 = "0.4"
reqwest = { version = "0.11", features = ["blocking", "json"] }
rustc-demangle = "0.1"
serde = { version = "1", features = ["derive"] }
serde_json = "1"
tar = "0.4"
tempfile = "3"
toml = "*"
walrus = "*"
which = "*"

[dev-dependencies]
wasmparser = "*"
