//! The directories in which downloads are kept.

use crate::error::Error;
use crate::path::{join, join_spec};
use vstd::prelude::*;

verus! {

/// The cache of one version of the tool.
#[derive(Clone, Debug, PartialEq, Eq)]
pub struct Cache {
    all_versions_root: String,
    root: String,
}

/// The directory that holds the caches of all versions: `cargo-wasix` in the
/// user's cache directory if there is one, else `.cargo-wasi` in the home
/// directory.
pub open spec fn all_versions_root_spec(cache_dir: Option<Seq<char>>, home_dir: Option<Seq<char>>)
    -> Option<Seq<char>> {
    match cache_dir {
        Some(dir) => Some(join_spec(dir, "cargo-wasix"@)),
        None => match home_dir {
            Some(home) => Some(join_spec(home, ".cargo-wasi"@)),
            None => None,
        },
    }
}

impl Cache {
    /// The directory of this version's cache.
    pub closed spec fn root_view(&self) -> Seq<char> {
        self.root@
    }

    /// The directory that holds the caches of all versions.
    pub closed spec fn all_versions_root_view(&self) -> Seq<char> {
        self.all_versions_root@
    }

    /// The cache of the version `version`, given the user's cache directory
    /// and home directory as far as they are known. It fails if neither is
    /// known.
    pub fn new(cache_dir: Option<&str>, home_dir: Option<&str>, version: &str) -> (r: Result<
        Cache,
        Error,
    >)
        ensures
            ({
                let base = all_versions_root_spec(
                    match cache_dir {
                        Some(d) => Some(d@),
                        None => None,
                    },
                    match home_dir {
                        Some(d) => Some(d@),
                        None => None,
                    },
                );
                match r {
                    Ok(c) => base == Some(c.all_versions_root_view()) && c.root_view() == join_spec(
                        c.all_versions_root_view(),
                        version@,
                    ),
                    Err(e) => base is None && e.kind is Configuration && e.context@.len() == 0
                        && e.message@ == "failed to find home directory, is $HOME set?"@,
                }
            }),
    {
        let all_versions_root = match cache_dir {
            Some(dir) => join(dir, "cargo-wasix"),
            None => match home_dir {
                Some(home) => join(home, ".cargo-wasi"),
                None => {
                    return Err(
                        Error::configuration(
                            "failed to find home directory, is $HOME set?".to_owned(),
                        ),
                    );
                },
            },
        };
        let root = join(all_versions_root.as_str(), version);
        Ok(Cache { all_versions_root, root })
    }

    /// The directory of this version's cache.
    pub fn root(&self) -> (p: &str)
        ensures
            p@ == self.root_view(),
    {
        self.root.as_str()
    }

    /// The directory that holds the caches of all versions, for cleaning.
    pub fn all_versions_root(&self) -> (p: &str)
        ensures
            p@ == self.all_versions_root_view(),
    {
        self.all_versions_root.as_str()
    }
}

} // verus!
