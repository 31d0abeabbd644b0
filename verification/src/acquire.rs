//! Tools that may be missing: a command is run; if its tool is not there
//! and may be fetched, the tool is fetched into the cache and the command is
//! run once more.

use crate::error::Error;
use crate::path::{join, join_spec};
use crate::text::strs;
use vstd::prelude::*;

verus! {

/// Where a tool comes from.
#[derive(Clone, Copy, Debug, PartialEq, Eq, Structural)]
pub enum ToolOrigin {
    /// The user named it.
    Overridden,
    /// It was found on the search path.
    SearchPath,
    /// It is kept in the cache.
    Cache,
}

/// A tool that a command depends on.
#[derive(Clone, Debug, PartialEq, Eq)]
pub struct ToolPath {
    /// Where its executable is.
    pub bin_path: String,
    pub origin: ToolOrigin,
    /// The directory of the cache that the tool is unpacked into when it is
    /// fetched.
    pub cache_base: String,
    /// The files that the tool consists of, under `cache_base`.
    pub sub_paths: Vec<String>,
    /// Where its executable is once it was fetched.
    pub cache_bin: String,
}

impl ToolPath {
    /// Where the executable is.
    pub fn bin_path(&self) -> (p: &str)
        ensures
            p@ == self.bin_path@,
    {
        self.bin_path.as_str()
    }

    /// Whether the user named the tool. Such a tool is never fetched.
    pub fn is_overridden(&self) -> (r: bool)
        ensures
            r == (self.origin is Overridden),
    {
        match self.origin {
            ToolOrigin::Overridden => true,
            _ => false,
        }
    }

    /// The directory and the files that the tool is fetched into: for every
    /// tool but one that the user named.
    pub fn cache_paths(&self) -> (r: Option<(&str, &Vec<String>)>)
        ensures
            r is Some <==> !(self.origin is Overridden),
            r matches Some(p) ==> p.0@ == self.cache_base@ && p.1 == &self.sub_paths,
    {
        match self.origin {
            ToolOrigin::Overridden => None,
            _ => Some((self.cache_base.as_str(), &self.sub_paths)),
        }
    }

    /// The executable that a command is run with once more after the tool
    /// was fetched: the one that was unpacked into the cache.
    pub fn retry_path(&self) -> (p: &str)
        ensures
            p@ == self.cache_bin@,
    {
        self.cache_bin.as_str()
    }
}

/// The file of the optimizer under its directory in the cache.
pub open spec fn wasm_opt_file(windows: bool) -> Seq<char> {
    if windows {
        "bin/wasm-opt.exe"@
    } else {
        "bin/wasm-opt"@
    }
}

/// The files that the optimizer consists of in the cache: its executable
/// and, on macOS, its library.
pub open spec fn wasm_opt_files(windows: bool, macos: bool) -> Seq<Seq<char>> {
    seq![wasm_opt_file(windows)] + if macos {
        seq!["lib/libbinaryen.dylib"@]
    } else {
        Seq::empty()
    }
}

/// The optimizer: the one that the user named, else the one that was found
/// on the search path, else the one that is kept under `cache_root`.
pub fn wasm_opt_tool(
    cache_root: &str,
    named: Option<String>,
    on_search_path: Option<String>,
    windows: bool,
    macos: bool,
) -> (tool: ToolPath)
    ensures
        tool.cache_base@ == join_spec(cache_root@, "wasm-opt"@),
        strs(tool.sub_paths@) == wasm_opt_files(windows, macos),
        tool.cache_bin@ == join_spec(join_spec(cache_root@, "wasm-opt"@), wasm_opt_file(windows)),
        match named {
            Some(n) => tool.origin is Overridden && tool.bin_path@ == n@,
            None => match on_search_path {
                Some(p) => tool.origin is SearchPath && tool.bin_path@ == p@,
                None => tool.origin is Cache && tool.bin_path@ == join_spec(
                    join_spec(cache_root@, "wasm-opt"@),
                    wasm_opt_file(windows),
                ),
            },
        },
{
    let file: &str = if windows {
        "bin/wasm-opt.exe"
    } else {
        "bin/wasm-opt"
    };
    let cache_base = join(cache_root, "wasm-opt");
    let mut sub_paths: Vec<String> = Vec::new();
    sub_paths.push(file.to_owned());
    if macos {
        sub_paths.push("lib/libbinaryen.dylib".to_owned());
    }
    assert(strs(sub_paths@) =~= wasm_opt_files(windows, macos));
    let cache_bin = join(cache_base.as_str(), file);
    match named {
        Some(n) => ToolPath {
            bin_path: n,
            origin: ToolOrigin::Overridden,
            cache_base,
            sub_paths,
            cache_bin,
        },
        None => match on_search_path {
            Some(p) => ToolPath {
                bin_path: p,
                origin: ToolOrigin::SearchPath,
                cache_base,
                sub_paths,
                cache_bin,
            },
            None => ToolPath {
                bin_path: cache_bin.clone(),
                origin: ToolOrigin::Cache,
                cache_base,
                sub_paths,
                cache_bin,
            },
        },
    }
}

/// Why a command could not be run.
#[derive(Clone, Copy, Debug, PartialEq, Eq, Structural)]
pub enum RunFailure {
    /// Its tool was not found.
    NotFound,
    /// Its tool may not be executed: so it is while another process is still
    /// unpacking it.
    PermissionDenied,
    /// Anything else.
    Other,
}

/// Whether a failure may come from a tool that is not there yet.
pub open spec fn is_missing(failure: RunFailure) -> bool {
    failure is NotFound || failure is PermissionDenied
}

/// Where the running of a command stands.
#[derive(Clone, Copy, Debug, PartialEq, Eq, Structural)]
pub enum Attempt {
    /// The command is to be run.
    First,
    /// The tool is to be fetched.
    Acquiring,
    /// The command is to be run once more.
    Retrying,
    /// The command ran.
    Succeeded,
    /// The last failure stands.
    Failed,
}

/// What is reported of a piece of work.
#[derive(Clone, Copy, Debug, PartialEq, Eq, Structural)]
pub enum Report {
    /// The command ran, or the tool was fetched.
    Done,
    /// The command could not be run.
    NotRun(RunFailure),
    /// The tool could not be fetched.
    NotFetched,
}

/// The state that follows `attempt` after `report`. A first run that fails
/// for want of the tool leads to fetching, unless the user named the tool;
/// fetching leads to one more run; every other failure stands, and so does
/// any failure of the second run.
pub open spec fn next_attempt(attempt: Attempt, report: Report, overridden: bool) -> Attempt {
    match attempt {
        Attempt::First => match report {
            Report::Done => Attempt::Succeeded,
            Report::NotRun(f) => if is_missing(f) && !overridden {
                Attempt::Acquiring
            } else {
                Attempt::Failed
            },
            Report::NotFetched => Attempt::Failed,
        },
        Attempt::Acquiring => match report {
            Report::Done => Attempt::Retrying,
            _ => Attempt::Failed,
        },
        Attempt::Retrying => match report {
            Report::Done => Attempt::Succeeded,
            _ => Attempt::Failed,
        },
        Attempt::Succeeded => Attempt::Succeeded,
        Attempt::Failed => Attempt::Failed,
    }
}

/// What the caller does next.
#[derive(Clone, Copy, Debug, PartialEq, Eq, Structural)]
pub enum Duty {
    /// Run the command.
    Run,
    /// Fetch the tool.
    Fetch,
    /// Nothing: the command ran, or its failure stands.
    Stop,
}

/// What the caller does in a state.
pub open spec fn duty_of(attempt: Attempt) -> Duty {
    match attempt {
        Attempt::First => Duty::Run,
        Attempt::Acquiring => Duty::Fetch,
        Attempt::Retrying => Duty::Run,
        Attempt::Succeeded => Duty::Stop,
        Attempt::Failed => Duty::Stop,
    }
}

/// The running of one command that depends on a tool.
#[derive(Debug, PartialEq, Eq)]
pub struct Acquisition {
    attempt: Attempt,
    /// Whether the user named the tool.
    overridden: bool,
    /// The failure that stands.
    error: Option<Error>,
}

/// The running of a command at its start.
pub fn run_or_download(is_overridden: bool) -> (a: Acquisition)
    ensures
        a.attempt() is First,
        a.overridden() == is_overridden,
        a.error() is None,
{
    Acquisition { attempt: Attempt::First, overridden: is_overridden, error: None }
}

impl Acquisition {
    /// In the state `Failed` the failure is known.
    #[verifier::type_invariant]
    spec fn inv(self) -> bool {
        self.attempt is Failed ==> self.error is Some
    }

    /// Where the running stands.
    pub closed spec fn attempt(&self) -> Attempt {
        self.attempt
    }

    /// Whether the user named the tool.
    pub closed spec fn overridden(&self) -> bool {
        self.overridden
    }

    /// The failure that stands: known in the state `Failed`.
    pub closed spec fn error(&self) -> Option<Error> {
        self.error
    }

    /// What the caller does next.
    pub fn duty(&self) -> (t: Duty)
        ensures
            t == duty_of(self.attempt()),
    {
        match self.attempt {
            Attempt::First => Duty::Run,
            Attempt::Acquiring => Duty::Fetch,
            Attempt::Retrying => Duty::Run,
            Attempt::Succeeded => Duty::Stop,
            Attempt::Failed => Duty::Stop,
        }
    }

    /// Where the running stands.
    pub fn state(&self) -> (a: Attempt)
        ensures
            a == self.attempt(),
    {
        self.attempt
    }

    fn fail(&mut self, error: Error)
        ensures
            final(self).attempt() is Failed,
            final(self).error() == Some(error),
            final(self).overridden() == old(self).overridden(),
    {
        proof {
            use_type_invariant(&*self);
        }
        self.error = Some(error);
        self.attempt = Attempt::Failed;
    }

    /// Reports a run of the command: that it ran, or why it did not, with
    /// the failure as it is to be surfaced. A report that was not asked for
    /// counts as one of the work that was.
    pub fn ran(&mut self, outcome: Result<(), (RunFailure, Error)>)
        ensures
            final(self).overridden() == old(self).overridden(),
            final(self).attempt() == next_attempt(
                old(self).attempt(),
                match outcome {
                    Ok(_) => Report::Done,
                    Err(f) => Report::NotRun(f.0),
                },
                old(self).overridden(),
            ),
            final(self).attempt() is Failed && !(old(self).attempt() is Failed) ==> (
            outcome matches Err(f) && final(self).error() == Some(f.1)),
            old(self).attempt() is Failed ==> final(self).error() == old(self).error(),
    {
        proof {
            use_type_invariant(&*self);
        }
        match self.attempt {
            Attempt::First => match outcome {
                Ok(_) => {
                    self.attempt = Attempt::Succeeded;
                },
                Err((failure, error)) => {
                    let missing = match failure {
                        RunFailure::NotFound | RunFailure::PermissionDenied => true,
                        RunFailure::Other => false,
                    };
                    if missing && !self.overridden {
                        self.attempt = Attempt::Acquiring;
                    } else {
                        self.fail(error);
                    }
                },
            },
            Attempt::Retrying => match outcome {
                Ok(_) => {
                    self.attempt = Attempt::Succeeded;
                },
                Err((_, error)) => {
                    self.fail(error);
                },
            },
            Attempt::Acquiring => match outcome {
                Ok(_) => {
                    self.attempt = Attempt::Retrying;
                },
                Err((_, error)) => {
                    self.fail(error);
                },
            },
            Attempt::Succeeded => {},
            Attempt::Failed => {},
        }
    }

    /// Reports the fetching of the tool. A report that was not asked for
    /// counts as one of the work that was.
    pub fn fetched(&mut self, outcome: Result<(), Error>)
        ensures
            final(self).overridden() == old(self).overridden(),
            final(self).attempt() == next_attempt(
                old(self).attempt(),
                match outcome {
                    Ok(_) => Report::Done,
                    Err(_) => Report::NotFetched,
                },
                old(self).overridden(),
            ),
            final(self).attempt() is Failed && !(old(self).attempt() is Failed) ==> (
            outcome matches Err(e) && final(self).error() == Some(e)),
            old(self).attempt() is Failed ==> final(self).error() == old(self).error(),
    {
        proof {
            use_type_invariant(&*self);
        }
        match self.attempt {
            Attempt::Acquiring => match outcome {
                Ok(_) => {
                    self.attempt = Attempt::Retrying;
                },
                Err(error) => {
                    self.fail(error);
                },
            },
            Attempt::First | Attempt::Retrying => match outcome {
                Ok(_) => {
                    self.attempt = Attempt::Succeeded;
                },
                Err(error) => {
                    self.fail(error);
                },
            },
            Attempt::Succeeded => {},
            Attempt::Failed => {},
        }
    }

    /// The result, once nothing is left to do; nothing before.
    pub fn finish(self) -> (r: Option<Result<(), Error>>)
        ensures
            match self.attempt() {
                Attempt::Succeeded => r == Some(Ok::<(), Error>(())),
                Attempt::Failed => r matches Some(Err(e)) && self.error() == Some(e),
                _ => r is None,
            },
    {
        proof {
            use_type_invariant(&self);
        }
        match self.attempt {
            Attempt::Succeeded => Some(Ok(())),
            Attempt::Failed => match self.error {
                Some(e) => Some(Err(e)),
                None => None,
            },
            _ => None,
        }
    }
}

/// How the work for one command goes.
pub struct Course {
    /// The first run.
    pub first: Report,
    /// The fetching of the tool.
    pub fetch: Report,
    /// The second run.
    pub second: Report,
}

/// What is reported of the work of a state.
pub open spec fn report_in(attempt: Attempt, course: Course) -> Report {
    match attempt {
        Attempt::First => course.first,
        Attempt::Acquiring => course.fetch,
        _ => course.second,
    }
}

/// The state after `steps` pieces of work.
pub open spec fn attempt_after(steps: nat, overridden: bool, course: Course) -> Attempt
    decreases steps,
{
    if steps == 0 {
        Attempt::First
    } else {
        let before = attempt_after((steps - 1) as nat, overridden, course);
        next_attempt(before, report_in(before, course), overridden)
    }
}

/// The number of the first `steps` pieces of work that were of the kind
/// `duty`.
pub open spec fn times(duty: Duty, steps: nat, overridden: bool, course: Course) -> nat
    decreases steps,
{
    if steps == 0 {
        0
    } else {
        times(duty, (steps - 1) as nat, overridden, course) + if duty_of(
            attempt_after((steps - 1) as nat, overridden, course),
        ) == duty {
            1nat
        } else {
            0nat
        }
    }
}

proof fn lemma_attempt_unfold(steps: nat, overridden: bool, course: Course)
    requires
        steps > 0,
    ensures
        attempt_after(steps, overridden, course) == next_attempt(
            attempt_after((steps - 1) as nat, overridden, course),
            report_in(attempt_after((steps - 1) as nat, overridden, course), course),
            overridden,
        ),
        times(Duty::Fetch, steps, overridden, course) == times(
            Duty::Fetch,
            (steps - 1) as nat,
            overridden,
            course,
        ) + if duty_of(attempt_after((steps - 1) as nat, overridden, course)) == Duty::Fetch {
            1nat
        } else {
            0nat
        },
        times(Duty::Run, steps, overridden, course) == times(
            Duty::Run,
            (steps - 1) as nat,
            overridden,
            course,
        ) + if duty_of(attempt_after((steps - 1) as nat, overridden, course)) == Duty::Run {
            1nat
        } else {
            0nat
        },
{
}

proof fn lemma_stopped_stays(from: nat, to: nat, overridden: bool, course: Course)
    requires
        from <= to,
        duty_of(attempt_after(from, overridden, course)) is Stop,
    ensures
        attempt_after(to, overridden, course) == attempt_after(from, overridden, course),
        times(Duty::Fetch, to, overridden, course) == times(Duty::Fetch, from, overridden, course),
        times(Duty::Run, to, overridden, course) == times(Duty::Run, from, overridden, course),
    decreases to,
{
    if from < to {
        lemma_stopped_stays(from, (to - 1) as nat, overridden, course);
        lemma_attempt_unfold(to, overridden, course);
    }
}

/// A tool that the user named and that is missing fails at once: the
/// command is run once, nothing is fetched, and the failure of that run
/// stands, however long the caller goes on.
pub proof fn lemma_overridden_tool_is_never_fetched(course: Course, steps: nat)
    requires
        course.first is NotRun,
        steps >= 1,
    ensures
        attempt_after(steps, true, course) is Failed,
        times(Duty::Fetch, steps, true, course) == 0,
        times(Duty::Run, steps, true, course) == 1,
{
    lemma_attempt_unfold(1, true, course);
    lemma_stopped_stays(1, steps, true, course);
}

/// A missing tool that the user did not name is fetched exactly once, and
/// the command is then run exactly once more, however long the caller goes
/// on; the outcome is that of the second run.
pub proof fn lemma_missing_tool_is_fetched_once(course: Course, steps: nat)
    requires
        course.first matches Report::NotRun(f) && is_missing(f),
        course.fetch is Done,
        steps >= 3,
    ensures
        times(Duty::Fetch, steps, false, course) == 1,
        times(Duty::Run, steps, false, course) == 2,
        attempt_after(steps, false, course) is Succeeded <==> course.second is Done,
        attempt_after(steps, false, course) is Succeeded || attempt_after(
            steps,
            false,
            course,
        ) is Failed,
{
    lemma_attempt_unfold(1, false, course);
    lemma_attempt_unfold(2, false, course);
    lemma_attempt_unfold(3, false, course);
    assert(attempt_after(1, false, course) is Acquiring);
    assert(attempt_after(2, false, course) is Retrying);
    lemma_stopped_stays(3, steps, false, course);
}

/// Whatever happens, a tool is fetched at most once and a command is run at
/// most twice.
pub proof fn lemma_at_most_one_fetch(overridden: bool, course: Course, steps: nat)
    ensures
        times(Duty::Fetch, steps, overridden, course) <= 1,
        times(Duty::Run, steps, overridden, course) <= 2,
        overridden ==> times(Duty::Fetch, steps, overridden, course) == 0,
{
    if steps >= 1 {
        lemma_attempt_unfold(1, overridden, course);
    }
    if steps >= 2 {
        lemma_attempt_unfold(2, overridden, course);
    }
    if steps >= 3 {
        lemma_attempt_unfold(3, overridden, course);
        let a1 = attempt_after(1, overridden, course);
        let a2 = attempt_after(2, overridden, course);
        let a3 = attempt_after(3, overridden, course);
        assert(a1 is Acquiring || duty_of(a1) is Stop);
        assert(a2 is Retrying || duty_of(a2) is Stop);
        assert(duty_of(a3) is Stop);
        lemma_stopped_stays(3, steps, overridden, course);
    }
}

} // verus!
