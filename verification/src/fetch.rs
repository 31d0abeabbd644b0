//! Fetching an archive into the cache: what is fetched, which entries of
//! the archive are unpacked and where, and when nothing is fetched because
//! all is there. The caller holds the lock of the cache from the first look
//! at the cache to the last file written.

use crate::error::Error;
use crate::path::{ends_with, ends_with_spec, join, join_spec};
use crate::text::{cat2, cat3, same, strs};
use vstd::prelude::*;

verus! {

/// A text as a quoted literal, with escapes for what cannot stand in one.
pub uninterp spec fn quoted(text: Seq<char>) -> Seq<char>;

/// The `Debug` form of a string: the string as a quoted literal. The result
/// depends on the string alone.
#[verifier::external_body]
fn quote(text: &str) -> (out: String)
    ensures
        out@ == quoted(text@),
{
    format!("{:?}", text)
}

/// The file that is locked while the cache at `cache_root` is filled.
pub fn download_lock(cache_root: &str) -> (p: String)
    ensures
        p@ == join_spec(cache_root@, "downloading"@),
{
    join(cache_root, "downloading")
}

/// Whether every item is true.
pub open spec fn all_true(present: Seq<bool>) -> bool {
    forall|i: int| 0 <= i < present.len() ==> present[i]
}

/// Whether all files are there, `present` saying of each whether it is.
pub fn all_present(present: &Vec<bool>) -> (r: bool)
    ensures
        r == all_true(present@),
{
    let mut i: usize = 0;
    while i < present.len()
        invariant
            i <= present.len(),
            forall|j: int| 0 <= j < i ==> present@[j],
        decreases present.len() - i,
    {
        if !present[i] {
            return false;
        }
        i += 1;
    }
    true
}

/// An archive to fetch and unpack.
#[derive(Clone, Debug, PartialEq, Eq)]
pub struct Fetch {
    /// Where the archive is.
    pub url: String,
    /// What the user is told is being downloaded.
    pub name: String,
    /// The context of a failure to unpack.
    pub context: String,
}

/// What is fetched to have the files `sub_paths` under `parent`: nothing if
/// all of them are there, `present` saying of each whether it is; else the
/// archive at `url`.
pub fn download(url: &str, name: &str, present: &Vec<bool>) -> (r: Option<Fetch>)
    ensures
        r is None <==> all_true(present@),
        r matches Some(f) ==> f.url@ == url@ && f.name@ == name@ && f.context@
            == "failed to extract tarball from "@ + url@,
{
    if all_present(present) {
        return None;
    }
    Some(
        Fetch {
            url: url.to_owned(),
            name: name.to_owned(),
            context: cat2("failed to extract tarball from ", url),
        },
    )
}

/// Where an entry of the archive is unpacked to: for each of `sub_paths`
/// that the entry's path ends with, that file under `parent`; in the order
/// of `sub_paths`.
pub open spec fn entry_targets_spec(entry: Seq<char>, parent: Seq<char>, sub_paths: Seq<Seq<char>>)
    -> Seq<Seq<char>>
    decreases sub_paths.len(),
{
    if sub_paths.len() == 0 {
        Seq::empty()
    } else {
        let before = entry_targets_spec(entry, parent, sub_paths.drop_last());
        if ends_with_spec(entry, sub_paths.last()) {
            before.push(join_spec(parent, sub_paths.last()))
        } else {
            before
        }
    }
}

/// Where an entry of the archive is unpacked to; nowhere if the list is
/// empty.
pub fn entry_targets(entry: &str, parent: &str, sub_paths: &Vec<String>) -> (out: Vec<String>)
    ensures
        strs(out@) == entry_targets_spec(entry@, parent@, strs(sub_paths@)),
{
    let mut out: Vec<String> = Vec::new();
    let ghost all = strs(sub_paths@);
    let mut i: usize = 0;
    assert(strs(out@) =~= entry_targets_spec(entry@, parent@, all.take(0)));
    while i < sub_paths.len()
        invariant
            i <= sub_paths.len(),
            all == strs(sub_paths@),
            strs(out@) == entry_targets_spec(entry@, parent@, all.take(i as int)),
        decreases sub_paths.len() - i,
    {
        let sub = sub_paths[i].as_str();
        proof {
            assert(all.take(i + 1).drop_last() =~= all.take(i as int));
            assert(all.take(i + 1).last() == sub@);
        }
        if ends_with(entry, sub) {
            let target = join(parent, sub);
            assert(strs(out@.push(target)) =~= strs(out@).push(target@));
            out.push(target);
        }
        i += 1;
    }
    assert(all.take(sub_paths.len() as int) =~= all);
    out
}

/// Whether the file with the index `i` is there: `present` says so. A file
/// that `present` does not speak of is not there.
pub open spec fn is_there(present: Seq<bool>, i: int) -> bool {
    0 <= i < present.len() && present[i]
}

/// The index of the first file from `from` on that is not there, or
/// `count` if all of them up to `count` are there.
pub open spec fn first_missing(present: Seq<bool>, from: int, count: int) -> int
    decreases count - from,
{
    if from >= count {
        count
    } else if !is_there(present, from) {
        from
    } else {
        first_missing(present, from + 1, count)
    }
}

proof fn lemma_first_missing(present: Seq<bool>, from: int, count: int, n: int)
    requires
        0 <= from <= n <= count,
        forall|j: int| from <= j < n ==> is_there(present, j),
        n < count ==> !is_there(present, n),
    ensures
        first_missing(present, from, count) == n,
    decreases n - from,
{
    if from < n {
        lemma_first_missing(present, from + 1, count, n);
    }
}

/// Checks, after unpacking, that every file of `sub_paths` is there,
/// `present` saying of each whether it is. The failure names the first that
/// is missing.
pub fn check_extracted(sub_paths: &Vec<String>, present: &Vec<bool>) -> (r: Result<(), Error>)
    ensures
        r is Ok <==> forall|i: int| 0 <= i < sub_paths.len() ==> is_there(present@, i),
        r matches Err(e) ==> e.kind is Configuration && e.context@.len() == 0 && e.message@
            == "failed to find "@ + quoted(
            sub_paths@[first_missing(present@, 0, sub_paths.len() as int)]@,
        ) + " in archive"@,
{
    let mut i: usize = 0;
    while i < sub_paths.len()
        invariant
            i <= sub_paths.len(),
            forall|j: int| 0 <= j < i ==> is_there(present@, j),
        decreases sub_paths.len() - i,
    {
        if i >= present.len() || !present[i] {
            assert(!is_there(present@, i as int));
            proof {
                lemma_first_missing(present@, 0, sub_paths.len() as int, i as int);
            }
            let q = quote(sub_paths[i].as_str());
            return Err(
                Error::configuration(cat3("failed to find ", q.as_str(), " in archive")),
            );
        }
        i += 1;
    }
    Ok(())
}

/// A request for a file.
#[derive(Clone, Debug, PartialEq, Eq)]
pub struct Request {
    pub url: String,
    /// How the tool names itself to the server.
    pub user_agent: String,
    /// The seconds allowed for connecting.
    pub connect_timeout: u64,
    /// The seconds allowed for the whole request.
    pub timeout: u64,
    /// The proxy to go through, if any.
    pub proxy: Option<String>,
}

/// The request for `url` by the version `version` of the tool, with
/// `timeout` seconds for the whole and ten for connecting.
pub fn get(url: &str, version: &str, timeout: u64, proxy: Option<String>) -> (r: Request)
    ensures
        r.url@ == url@,
        r.user_agent@ == "cargo-wasix/v"@ + version@,
        r.connect_timeout == 10,
        r.timeout == timeout,
        r.proxy == proxy,
{
    Request {
        url: url.to_owned(),
        user_agent: cat2("cargo-wasix/v", version),
        connect_timeout: 10,
        timeout,
        proxy,
    }
}

/// Checks the status of the response to a request for `url`: the codes from
/// 200 to 299 are a success. `status` is the status as the response words
/// it.
pub fn check_response(url: &str, code: u16, status: &str) -> (r: Result<(), Error>)
    ensures
        r is Ok <==> 200 <= code <= 299,
        r matches Err(e) ==> e.kind is Network && e.context@.len() == 0 && e.message@
            == "failed to get successful response from "@ + url@ + ": "@ + status@,
{
    if 200 <= code && code <= 299 {
        return Ok(());
    }
    let mut msg = cat3("failed to get successful response from ", url, ": ");
    msg.append(status);
    Err(Error::network(msg))
}

/// The release of the optimizer that is fetched.
pub const BINARYEN_TAG: &'static str = "version_109";

/// Where the archive of the optimizer for `platform` is.
pub open spec fn binaryen_url_spec(platform: Seq<char>) -> Seq<char> {
    "https://github.com/WebAssembly/binaryen/releases/download/"@ + "version_109"@
        + "/binaryen-"@ + "version_109"@ + "-"@ + platform + ".tar.gz"@
}

/// The name of the platform that an archive of the optimizer exists for, on
/// a machine of architecture `arch` under the operating system `os`.
pub open spec fn binaryen_platform(os: Seq<char>, arch: Seq<char>) -> Option<Seq<char>> {
    if os == "linux"@ && arch == "x86_64"@ {
        Some("x86_64-linux"@)
    } else if os == "macos"@ && arch == "x86_64"@ {
        Some("x86_64-macos"@)
    } else if os == "macos"@ && arch == "aarch64"@ {
        Some("arm64-macos"@)
    } else if os == "windows"@ && arch == "x86_64"@ {
        Some("x86_64-windows"@)
    } else {
        None
    }
}

/// The message for a machine that no archive of the optimizer exists for.
pub open spec fn no_wasm_opt() -> Seq<char> {
    "no precompiled binaries of `wasm-opt` are available for this platform, you'll want to set `$WASM_OPT` to a preinstalled `wasm-opt` command or disable via `wasm-opt = false` in your manifest"@
}

fn binaryen_url(platform: &str) -> (url: String)
    ensures
        url@ == binaryen_url_spec(platform@),
{
    let mut url = "https://github.com/WebAssembly/binaryen/releases/download/".to_owned();
    url.append("version_109");
    url.append("/binaryen-");
    url.append("version_109");
    url.append("-");
    url.append(platform);
    url.append(".tar.gz");
    url
}

/// What is fetched to install the optimizer on a machine of architecture
/// `arch` under the operating system `os`: nothing if its files are there,
/// `present` saying of each whether it is; a failure if no archive exists
/// for such a machine.
pub fn install_wasm_opt(os: &str, arch: &str, present: &Vec<bool>) -> (r: Result<
    Option<Fetch>,
    Error,
>)
    ensures
        r is Ok <==> binaryen_platform(os@, arch@) is Some,
        r matches Ok(f) ==> (f is None <==> all_true(present@)),
        r matches Ok(Some(f)) ==> f.url@ == binaryen_url_spec(binaryen_platform(os@, arch@)->0)
            && f.name@ == "precompiled wasm-opt version_109"@ && f.context@
            == "failed to extract tarball from "@ + f.url@,
        r matches Err(e) ==> e.kind is Configuration && e.context@.len() == 0 && e.message@
            == no_wasm_opt(),
{
    let x86 = same(arch, "x86_64");
    let url = if same(os, "linux") && x86 {
        binaryen_url("x86_64-linux")
    } else if same(os, "macos") && x86 {
        binaryen_url("x86_64-macos")
    } else if same(os, "macos") && same(arch, "aarch64") {
        binaryen_url("arm64-macos")
    } else if same(os, "windows") && x86 {
        binaryen_url("x86_64-windows")
    } else {
        return Err(
            Error::configuration(
                "no precompiled binaries of `wasm-opt` are available for this platform, you'll want to set `$WASM_OPT` to a preinstalled `wasm-opt` command or disable via `wasm-opt = false` in your manifest".to_owned(),
            ),
        );
    };
    Ok(download(url.as_str(), "precompiled wasm-opt version_109", present))
}

/// The files of a cache: the paths that are there.
pub type Cache = Set<Seq<char>>;

/// Whether every file of `sub_paths` is in the cache under `parent`.
pub open spec fn cached(cache: Cache, parent: Seq<char>, sub_paths: Seq<Seq<char>>) -> bool {
    forall|i: int| 0 <= i < sub_paths.len() ==> cache.contains(join_spec(parent, sub_paths[i]))
}

/// Whether the archive with the entries `archive` holds every file of
/// `sub_paths`.
pub open spec fn archive_holds(archive: Seq<Seq<char>>, sub_paths: Seq<Seq<char>>) -> bool {
    forall|i: int|
        0 <= i < sub_paths.len() ==> exists|k: int|
            0 <= k < archive.len() && ends_with_spec(archive[k], #[trigger] sub_paths[i])
}

/// The cache after the entries `archive` were unpacked: each target of each
/// entry is there.
pub open spec fn unpacked(
    cache: Cache,
    parent: Seq<char>,
    sub_paths: Seq<Seq<char>>,
    archive: Seq<Seq<char>>,
) -> Cache {
    cache.union(
        Set::new(
            |p: Seq<char>|
                exists|k: int|
                    0 <= k < archive.len() && entry_targets_spec(
                        #[trigger] archive[k],
                        parent,
                        sub_paths,
                    ).contains(p),
        ),
    )
}

/// One invocation under the lock: it downloads and unpacks unless all is
/// there. The result is the cache afterwards and whether it downloaded.
pub open spec fn fetch_once(
    cache: Cache,
    parent: Seq<char>,
    sub_paths: Seq<Seq<char>>,
    archive: Seq<Seq<char>>,
) -> (Cache, bool) {
    if cached(cache, parent, sub_paths) {
        (cache, false)
    } else {
        (unpacked(cache, parent, sub_paths, archive), true)
    }
}

proof fn lemma_targets_hold(
    entry: Seq<char>,
    parent: Seq<char>,
    sub_paths: Seq<Seq<char>>,
    i: int,
)
    requires
        0 <= i < sub_paths.len(),
        ends_with_spec(entry, sub_paths[i]),
    ensures
        entry_targets_spec(entry, parent, sub_paths).contains(join_spec(parent, sub_paths[i])),
    decreases sub_paths.len(),
{
    let before = entry_targets_spec(entry, parent, sub_paths.drop_last());
    let all = entry_targets_spec(entry, parent, sub_paths);
    if i == sub_paths.len() - 1 {
        assert(all == before.push(join_spec(parent, sub_paths.last())));
        assert(all[all.len() - 1] == join_spec(parent, sub_paths[i]));
    } else {
        lemma_targets_hold(entry, parent, sub_paths.drop_last(), i);
        let k = choose|k: int|
            0 <= k < before.len() && before[k] == join_spec(parent, sub_paths.drop_last()[i]);
        assert(all[k] == before[k]);
    }
}

/// Two invocations that find the cache without one of the files, and that
/// the lock lets work only one after the other, leave every file in the
/// cache, and exactly one of them downloads: the first; the second finds
/// all there. This holds where the archive holds every file.
pub proof fn lemma_one_download_fills_the_cache(
    cache: Cache,
    parent: Seq<char>,
    sub_paths: Seq<Seq<char>>,
    archive: Seq<Seq<char>>,
)
    requires
        !cached(cache, parent, sub_paths),
        archive_holds(archive, sub_paths),
    ensures
        ({
            let first = fetch_once(cache, parent, sub_paths, archive);
            let second = fetch_once(first.0, parent, sub_paths, archive);
            &&& first.1
            &&& !second.1
            &&& second.0 == first.0
            &&& cached(second.0, parent, sub_paths)
        }),
{
    let first = fetch_once(cache, parent, sub_paths, archive);
    assert forall|i: int| 0 <= i < sub_paths.len() implies first.0.contains(
        join_spec(parent, sub_paths[i]),
    ) by {
        let k = choose|k: int|
            0 <= k < archive.len() && ends_with_spec(archive[k], #[trigger] sub_paths[i]);
        lemma_targets_hold(archive[k], parent, sub_paths, i);
    }
}

} // verus!
