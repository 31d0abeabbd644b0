//! Building for the WASIX targets: the toolchain is found, downloaded or
//! built; the build tool is run and its records are read; each binary is
//! post-processed; and only then is anything run.
//!
//! The library decides and the caller acts: what touches processes, files
//! or the network is handed out as plain data, and what came of it is
//! handed back.

pub mod acquire;
pub mod action;
pub mod cache;
pub mod command;
pub mod error;
pub mod fetch;
pub mod outside;
pub mod path;
pub mod plan;
pub mod postprocess;
pub mod records;
pub mod resolver;
pub mod source_build;
pub mod text;
pub mod toolchain;
pub mod utils;
pub mod wasm;
