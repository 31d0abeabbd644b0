//! The resolution of the toolchain, step by step: look for the registered
//! toolchain; failing that, get a prebuilt one; failing that, build one from
//! source; register what was got; check it.
//!
//! The resolver decides what is done next. The caller does it, under the
//! lock that guards the registration, and reports how it went.

use crate::error::Error;
use crate::path::{join, join_spec};
use crate::toolchain::{
    opt_string, toolchain_valid, validate_toolchain, validation_fault, RustupToolchain,
};
use vstd::prelude::*;

verus! {

/// Where a resolution stands.
#[derive(Clone, Copy, Debug, PartialEq, Eq, Structural)]
pub enum Phase {
    CheckLinked,
    AcquirePrebuilt,
    BuildFromSource,
    Link,
    Validate,
    Done,
    Failed,
}

/// What the caller does in a phase.
#[derive(Clone, Copy, Debug, PartialEq, Eq, Structural)]
pub enum Work {
    /// List the registered toolchains and look for the reserved name.
    Lookup,
    /// Download and unpack a prebuilt toolchain.
    AcquirePrebuilt,
    /// Build the toolchain from source.
    BuildFromSource,
    /// Register the directory that was got.
    Link,
    /// Ask the compiler for its sysroot and look for the libraries.
    Validate,
    /// Nothing: the resolution is over.
    Stop,
}

/// The work of a phase.
pub open spec fn work_of(phase: Phase) -> Work {
    match phase {
        Phase::CheckLinked => Work::Lookup,
        Phase::AcquirePrebuilt => Work::AcquirePrebuilt,
        Phase::BuildFromSource => Work::BuildFromSource,
        Phase::Link => Work::Link,
        Phase::Validate => Work::Validate,
        Phase::Done => Work::Stop,
        Phase::Failed => Work::Stop,
    }
}

/// The phase that follows `phase` once its work went well (`ok`) or not.
/// For the lookup, `ok` says that the toolchain was found. Without network,
/// a toolchain that is not registered is a failure. Only a prebuilt
/// toolchain that cannot be had leads on to another way; every other
/// failure ends the resolution.
pub open spec fn next_phase(phase: Phase, ok: bool, offline: bool) -> Phase {
    match phase {
        Phase::CheckLinked => if ok {
            Phase::Validate
        } else if offline {
            Phase::Failed
        } else {
            Phase::AcquirePrebuilt
        },
        Phase::AcquirePrebuilt => if ok {
            Phase::Link
        } else {
            Phase::BuildFromSource
        },
        Phase::BuildFromSource => if ok {
            Phase::Link
        } else {
            Phase::Failed
        },
        Phase::Link => if ok {
            Phase::Validate
        } else {
            Phase::Failed
        },
        Phase::Validate => if ok {
            Phase::Done
        } else {
            Phase::Failed
        },
        Phase::Done => Phase::Done,
        Phase::Failed => Phase::Failed,
    }
}

/// The message for a toolchain that is not registered and cannot be got
/// without network.
pub open spec fn offline_message() -> Seq<char> {
    "\nCould not detect wasix toolchain, and could not install because CARGO_WASIX_OFFLINE is set.\nRun `cargo wasix build-toolchain if you want to build locally.\nWARNING: building takes a long time!"@
}

/// A resolution of the toolchain.
#[derive(Debug, PartialEq, Eq)]
pub struct Resolver {
    phase: Phase,
    /// Whether the network may not be used.
    offline: bool,
    /// Whether the 64-bit target is asked for.
    is64bit: bool,
    /// The directory to register.
    dir: Option<String>,
    /// The toolchain.
    toolchain: Option<RustupToolchain>,
    /// Why the resolution failed.
    error: Option<Error>,
    /// What the compiler of the toolchain reported as its sysroot when the
    /// toolchain passed the check.
    reported: Option<String>,
}

impl Resolver {
    /// In the phase `Link` the directory to register is known, in the
    /// phases `Validate` and `Done` the toolchain, in the phase `Failed`
    /// the failure. In the phase `Done` the toolchain has passed the check.
    #[verifier::type_invariant]
    spec fn inv(self) -> bool {
        &&& self.phase is Link ==> self.dir is Some
        &&& (self.phase is Validate || self.phase is Done) ==> self.toolchain is Some
        &&& self.phase is Failed ==> self.error is Some
        &&& self.phase is Done ==> self.reported is Some && toolchain_valid(
            self.toolchain->0.path@,
            self.reported->0@,
            true,
        )
    }

    /// Where the resolution stands.
    pub closed spec fn phase(&self) -> Phase {
        self.phase
    }

    /// Whether the network may not be used.
    pub closed spec fn offline(&self) -> bool {
        self.offline
    }

    /// Whether the 64-bit target is asked for.
    pub closed spec fn is64bit(&self) -> bool {
        self.is64bit
    }

    /// The directory to register: known in the phase `Link`.
    pub closed spec fn dir(&self) -> Option<Seq<char>> {
        opt_string(self.dir)
    }

    /// The toolchain: known in the phases `Validate` and `Done`.
    pub closed spec fn toolchain(&self) -> Option<RustupToolchain> {
        self.toolchain
    }

    /// Why the resolution failed: known in the phase `Failed`.
    pub closed spec fn error(&self) -> Option<Error> {
        self.error
    }

    /// What the compiler reported as its sysroot when the toolchain passed
    /// the check: known in the phase `Done`.
    pub closed spec fn reported(&self) -> Option<Seq<char>> {
        opt_string(self.reported)
    }

    /// What the caller does now.
    pub fn work(&self) -> (w: Work)
        ensures
            w == work_of(self.phase()),
    {
        match self.phase {
            Phase::CheckLinked => Work::Lookup,
            Phase::AcquirePrebuilt => Work::AcquirePrebuilt,
            Phase::BuildFromSource => Work::BuildFromSource,
            Phase::Link => Work::Link,
            Phase::Validate => Work::Validate,
            Phase::Done => Work::Stop,
            Phase::Failed => Work::Stop,
        }
    }

    /// Where the resolution stands.
    pub fn current_phase(&self) -> (p: Phase)
        ensures
            p == self.phase(),
    {
        self.phase
    }

    /// The directory to register, in the phase `Link`.
    pub fn link_dir(&self) -> (d: Option<&str>)
        ensures
            self.phase() is Link ==> d is Some,
            match d {
                Some(p) => self.dir() == Some(p@),
                None => self.dir() is None,
            },
    {
        proof {
            use_type_invariant(self);
        }
        match &self.dir {
            Some(d) => Some(d.as_str()),
            None => None,
        }
    }

    /// The toolchain, in the phases `Validate` and `Done`.
    pub fn found(&self) -> (t: Option<&RustupToolchain>)
        ensures
            self.phase() is Validate || self.phase() is Done ==> t is Some,
            match t {
                Some(t) => self.toolchain() == Some(*t),
                None => self.toolchain() is None,
            },
    {
        proof {
            use_type_invariant(self);
        }
        match &self.toolchain {
            Some(t) => Some(t),
            None => None,
        }
    }

    fn fail(&mut self, error: Error)
        ensures
            final(self).phase() is Failed,
            final(self).error() == Some(error),
            final(self).toolchain() == old(self).toolchain(),
            final(self).offline() == old(self).offline(),
            final(self).is64bit() == old(self).is64bit(),
    {
        proof {
            use_type_invariant(&*self);
        }
        self.error = Some(error);
        self.phase = Phase::Failed;
    }

    fn out_of_turn(&mut self)
        ensures
            final(self).phase() is Failed,
            final(self).offline() == old(self).offline(),
            final(self).is64bit() == old(self).is64bit(),
            final(self).error() matches Some(e) && e.kind is Configuration && e.message@
                == "the toolchain resolver was told of work that it had not asked for"@,
    {
        self.fail(
            Error::configuration(
                "the toolchain resolver was told of work that it had not asked for".to_owned(),
            ),
        );
    }

    /// Reports the lookup: `found` is the registered toolchain, if there is
    /// one. A report that was not asked for ends the resolution.
    pub fn looked_up(&mut self, found: Option<RustupToolchain>)
        ensures
            final(self).offline() == old(self).offline(),
            final(self).is64bit() == old(self).is64bit(),
            old(self).phase() is CheckLinked ==> final(self).phase() == next_phase(
                Phase::CheckLinked,
                found is Some,
                old(self).offline(),
            ),
            old(self).phase() is CheckLinked && found is Some ==> final(self).toolchain() == found,
            old(self).phase() is CheckLinked && found is None && old(self).offline() ==> (
            final(self).error() matches Some(e) && e.kind is Configuration
                && e.message@ == offline_message() && e.context@.len() == 0),
            !(old(self).phase() is CheckLinked) ==> final(self).phase() is Failed,
    {
        match self.phase {
            Phase::CheckLinked => {},
            _ => {
                self.out_of_turn();
                return ;
            },
        }
        match found {
            Some(t) => {
                self.toolchain = Some(t);
                self.phase = Phase::Validate;
            },
            None => {
                if self.offline {
                    self.fail(
                        Error::configuration(
                            "\nCould not detect wasix toolchain, and could not install because CARGO_WASIX_OFFLINE is set.\nRun `cargo wasix build-toolchain if you want to build locally.\nWARNING: building takes a long time!".to_owned(),
                        ),
                    );
                } else {
                    self.phase = Phase::AcquirePrebuilt;
                }
            },
        }
    }

    /// Reports the download of a prebuilt toolchain: the directory of the
    /// toolchain, in which the compiler stands under `rust`, or why there is
    /// none. A failure is not the end: the toolchain is then built from
    /// source.
    pub fn prebuilt(&mut self, outcome: Result<String, Error>)
        ensures
            final(self).offline() == old(self).offline(),
            final(self).is64bit() == old(self).is64bit(),
            old(self).phase() is AcquirePrebuilt ==> final(self).phase() == next_phase(
                Phase::AcquirePrebuilt,
                outcome is Ok,
                old(self).offline(),
            ),
            old(self).phase() is AcquirePrebuilt ==> (outcome matches Ok(d) ==> final(self).dir()
                == Some(join_spec(d@, "rust"@))),
            !(old(self).phase() is AcquirePrebuilt) ==> final(self).phase() is Failed,
    {
        match self.phase {
            Phase::AcquirePrebuilt => {},
            _ => {
                self.out_of_turn();
                return ;
            },
        }
        match outcome {
            Ok(d) => {
                self.dir = Some(join(d.as_str(), "rust"));
                self.phase = Phase::Link;
            },
            Err(_) => {
                self.phase = Phase::BuildFromSource;
            },
        }
    }

    /// Reports the build from source: the directory of the toolchain that
    /// was built, or why there is none. A failure ends the resolution.
    pub fn built(&mut self, outcome: Result<String, Error>)
        ensures
            final(self).offline() == old(self).offline(),
            final(self).is64bit() == old(self).is64bit(),
            old(self).phase() is BuildFromSource ==> final(self).phase() == next_phase(
                Phase::BuildFromSource,
                outcome is Ok,
                old(self).offline(),
            ),
            old(self).phase() is BuildFromSource ==> match outcome {
                Ok(d) => final(self).dir() == Some(d@),
                Err(e) => final(self).error() == Some(e),
            },
            !(old(self).phase() is BuildFromSource) ==> final(self).phase() is Failed,
    {
        match self.phase {
            Phase::BuildFromSource => {},
            _ => {
                self.out_of_turn();
                return ;
            },
        }
        match outcome {
            Ok(d) => {
                self.dir = Some(d);
                self.phase = Phase::Link;
            },
            Err(e) => {
                self.fail(e);
            },
        }
    }

    /// Reports the registration, under `name`, of the directory to
    /// register. A failure ends the resolution.
    pub fn linked(&mut self, name: &str, outcome: Result<(), Error>)
        ensures
            final(self).offline() == old(self).offline(),
            final(self).is64bit() == old(self).is64bit(),
            old(self).phase() is Link ==> final(self).phase() == next_phase(
                Phase::Link,
                outcome is Ok,
                old(self).offline(),
            ),
            old(self).phase() is Link ==> match outcome {
                Ok(_) => final(self).toolchain() matches Some(t) && t.name@ == name@ && Some(
                    t.path@,
                ) == old(self).dir(),
                Err(e) => final(self).error() == Some(e),
            },
            !(old(self).phase() is Link) ==> final(self).phase() is Failed,
    {
        proof {
            use_type_invariant(&*self);
        }
        match self.phase {
            Phase::Link => {},
            _ => {
                self.out_of_turn();
                return ;
            },
        }
        match outcome {
            Ok(_) => {
                let path: String = match &self.dir {
                    Some(d) => d.clone(),
                    None => String::new(),
                };
                self.toolchain = Some(RustupToolchain { name: name.to_owned(), path });
                self.phase = Phase::Validate;
            },
            Err(e) => {
                self.fail(e);
            },
        }
    }

    /// Reports what was seen of the toolchain, and checks it: `reported` is
    /// what its compiler printed when asked for the sysroot, or why it
    /// printed nothing; `lib_dir_exists` says whether the directory that
    /// `lib_dir` names for that sysroot is there. The toolchain passes if
    /// the sysroot is its registered path and the directory is there. A
    /// failure ends the resolution: nothing is tried again.
    pub fn validated(&mut self, reported: Result<String, Error>, lib_dir_exists: bool)
        ensures
            final(self).offline() == old(self).offline(),
            final(self).is64bit() == old(self).is64bit(),
            old(self).phase() is Validate ==> final(self).phase() == next_phase(
                Phase::Validate,
                reported matches Ok(text) && toolchain_valid(
                    old(self).toolchain()->0.path@,
                    text@,
                    lib_dir_exists,
                ),
                old(self).offline(),
            ),
            old(self).phase() is Validate ==> final(self).toolchain() == old(self).toolchain(),
            old(self).phase() is Validate ==> match reported {
                Ok(text) => if final(self).phase() is Done {
                    final(self).reported() == Some(text@)
                } else {
                    final(self).error() matches Some(e) && e.kind is Validation
                        && e.context@.len() == 0 && e.message@ == validation_fault(
                        old(self).toolchain()->0.name@,
                        old(self).toolchain()->0.path@,
                        text@,
                        old(self).is64bit(),
                    )
                },
                Err(e) => final(self).error() == Some(e),
            },
            !(old(self).phase() is Validate) ==> final(self).phase() is Failed,
    {
        proof {
            use_type_invariant(&*self);
        }
        match self.phase {
            Phase::Validate => {},
            _ => {
                self.out_of_turn();
                return ;
            },
        }
        match reported {
            Ok(text) => {
                let check = match &self.toolchain {
                    Some(t) => validate_toolchain(t, text.as_str(), self.is64bit, lib_dir_exists),
                    None => Ok(()),
                };
                match check {
                    Ok(_) => {
                        self.reported = Some(text);
                        self.phase = Phase::Done;
                    },
                    Err(e) => {
                        self.fail(e);
                    },
                }
            },
            Err(e) => {
                self.fail(e);
            },
        }
    }

    /// The result of a resolution that is over: after `Done` the toolchain,
    /// which has passed the check; after `Failed` the failure; nothing while
    /// work is left.
    pub fn finish(self) -> (r: Option<Result<RustupToolchain, Error>>)
        ensures
            match self.phase() {
                Phase::Done => r matches Some(Ok(t)) && Some(t) == self.toolchain() && (
                self.reported() matches Some(sysroot) && toolchain_valid(t.path@, sysroot, true)),
                Phase::Failed => r matches Some(Err(e)) && Some(e) == self.error(),
                _ => r is None,
            },
    {
        proof {
            use_type_invariant(&self);
        }
        match self.phase {
            Phase::Done => match self.toolchain {
                Some(t) => Some(Ok(t)),
                None => None,
            },
            Phase::Failed => match self.error {
                Some(e) => Some(Err(e)),
                None => None,
            },
            _ => None,
        }
    }
}

/// A resolution of the toolchain at its start.
pub fn ensure_toolchain(offline: bool, is64bit: bool) -> (r: Resolver)
    ensures
        r.phase() is CheckLinked,
        r.offline() == offline,
        r.is64bit() == is64bit,
        r.dir() is None,
        r.toolchain() is None,
        r.error() is None,
        r.reported() is None,
{
    Resolver {
        phase: Phase::CheckLinked,
        offline,
        is64bit,
        dir: None,
        toolchain: None,
        error: None,
        reported: None,
    }
}

/// How the work of a resolution goes, apart from the lookup.
pub struct Outcomes {
    /// Whether a prebuilt toolchain can be had.
    pub prebuilt: bool,
    /// Whether the build from source goes through.
    pub build: bool,
    /// Whether the registration goes through.
    pub link: bool,
    /// Whether the toolchain passes the check.
    pub valid: bool,
}

/// How the work of `phase` goes where the toolchain is registered or not
/// and the rest goes as `env` says.
pub open spec fn goes_well(phase: Phase, registered: bool, env: Outcomes) -> bool {
    match phase {
        Phase::CheckLinked => registered,
        Phase::AcquirePrebuilt => env.prebuilt,
        Phase::BuildFromSource => env.build,
        Phase::Link => env.link,
        Phase::Validate => env.valid,
        _ => true,
    }
}

/// Whether the toolchain is registered after the work of `phase`: a
/// registration that went through registers it; nothing else changes that.
pub open spec fn registered_after(phase: Phase, registered: bool, env: Outcomes) -> bool {
    registered || (phase is Link && env.link)
}

/// Whether a phase is one in which nothing is left to do.
pub open spec fn is_over(phase: Phase) -> bool {
    phase is Done || phase is Failed
}

/// Where a resolution stands after `steps` pieces of work, with whether the
/// toolchain is registered then. A resolution starts by looking for the
/// registered toolchain.
pub open spec fn state_after(steps: nat, registered: bool, offline: bool, env: Outcomes) -> (
    Phase,
    bool,
)
    decreases steps,
{
    if steps == 0 {
        (Phase::CheckLinked, registered)
    } else {
        let (phase, reg) = state_after((steps - 1) as nat, registered, offline, env);
        (
            next_phase(phase, goes_well(phase, reg, env), offline),
            registered_after(phase, reg, env),
        )
    }
}

/// The phase of a resolution after `steps` pieces of work.
pub open spec fn phase_after(steps: nat, registered: bool, offline: bool, env: Outcomes)
    -> Phase {
    state_after(steps, registered, offline, env).0
}

proof fn lemma_unfold(steps: nat, registered: bool, offline: bool, env: Outcomes)
    requires
        steps > 0,
    ensures
        ({
            let (phase, reg) = state_after((steps - 1) as nat, registered, offline, env);
            state_after(steps, registered, offline, env) == (
                next_phase(phase, goes_well(phase, reg, env), offline),
                registered_after(phase, reg, env),
            )
        }),
{
}

/// A resolution that is over stays as it is.
pub proof fn lemma_over_stays(
    from: nat,
    to: nat,
    registered: bool,
    offline: bool,
    env: Outcomes,
)
    requires
        from <= to,
        is_over(phase_after(from, registered, offline, env)),
    ensures
        state_after(to, registered, offline, env) == state_after(from, registered, offline, env),
    decreases to,
{
    if from < to {
        lemma_over_stays(from, (to - 1) as nat, registered, offline, env);
        lemma_unfold(to, registered, offline, env);
    }
}

/// Every resolution is over after five pieces of work at most, and passes
/// through no phase twice before it is over.
pub proof fn lemma_resolution_ends(registered: bool, offline: bool, env: Outcomes)
    ensures
        is_over(phase_after(5, registered, offline, env)),
        forall|i: nat, j: nat|
            i < j <= 5 && !is_over(#[trigger] phase_after(i, registered, offline, env))
                ==> phase_after(i, registered, offline, env) != #[trigger] phase_after(
                j,
                registered,
                offline,
                env,
            ),
{
    lemma_unfold(1, registered, offline, env);
    lemma_unfold(2, registered, offline, env);
    lemma_unfold(3, registered, offline, env);
    lemma_unfold(4, registered, offline, env);
    lemma_unfold(5, registered, offline, env);
    let p0 = phase_after(0, registered, offline, env);
    let p1 = phase_after(1, registered, offline, env);
    let p2 = phase_after(2, registered, offline, env);
    let p3 = phase_after(3, registered, offline, env);
    let p4 = phase_after(4, registered, offline, env);
    let p5 = phase_after(5, registered, offline, env);
    assert(p0 is CheckLinked);
    assert(p1 is Validate || p1 is Failed || p1 is AcquirePrebuilt);
    assert(is_over(p2) || p2 is Link || p2 is BuildFromSource);
    assert(is_over(p3) || p3 is Validate || p3 is Link);
    assert(is_over(p4) || p4 is Validate);
    assert(is_over(p5));
    assert forall|i: nat, j: nat|
        i < j <= 5 && !is_over(
            #[trigger] phase_after(i, registered, offline, env),
        ) implies phase_after(i, registered, offline, env) != #[trigger] phase_after(
        j,
        registered,
        offline,
        env,
    ) by {
        assert(i == 0 || i == 1 || i == 2 || i == 3 || i == 4);
        assert(j == 1 || j == 2 || j == 3 || j == 4 || j == 5);
    }
}

/// A resolution that ends well leaves the toolchain registered, and a
/// resolution that finds the toolchain registered only checks it: it
/// downloads nothing, builds nothing and registers nothing. So of two
/// resolutions in a row, the first of which ends well, the second does no
/// acquisition work, however its own work would go.
pub proof fn lemma_second_resolution_only_validates(
    registered: bool,
    offline: bool,
    first: Outcomes,
    again_offline: bool,
    second: Outcomes,
)
    requires
        phase_after(5, registered, offline, first) is Done,
    ensures
        state_after(5, registered, offline, first).1,
        forall|i: nat|
            {
                let phase = #[trigger] phase_after(i, true, again_offline, second);
                &&& i == 0 ==> phase is CheckLinked
                &&& i == 1 ==> phase is Validate
                &&& i >= 2 ==> is_over(phase)
            },
{
    lemma_unfold(1, registered, offline, first);
    lemma_unfold(2, registered, offline, first);
    lemma_unfold(3, registered, offline, first);
    lemma_unfold(4, registered, offline, first);
    lemma_unfold(5, registered, offline, first);
    let s1 = state_after(1, registered, offline, first);
    let s2 = state_after(2, registered, offline, first);
    let s3 = state_after(3, registered, offline, first);
    let s4 = state_after(4, registered, offline, first);
    let s5 = state_after(5, registered, offline, first);
    assert(s1.0 is Validate || s1.0 is Failed || s1.0 is AcquirePrebuilt);
    assert(is_over(s2.0) || s2.0 is Link || s2.0 is BuildFromSource);
    assert(is_over(s3.0) || s3.0 is Validate || s3.0 is Link);
    assert(is_over(s4.0) || s4.0 is Validate);
    assert(s5.1) by {
        if !registered {
            assert(s1.0 is AcquirePrebuilt);
            if s2.0 is Link {
                assert(s3.1);
            } else {
                assert(s3.0 is Link);
                assert(s4.1);
            }
        }
    }
    lemma_unfold(1, true, again_offline, second);
    lemma_unfold(2, true, again_offline, second);
    assert forall|i: nat|
        {
            let phase = #[trigger] phase_after(i, true, again_offline, second);
            &&& i == 0 ==> phase is CheckLinked
            &&& i == 1 ==> phase is Validate
            &&& i >= 2 ==> is_over(phase)
        } by {
        if i >= 2 {
            lemma_over_stays(2, i, true, again_offline, second);
        }
    }
}

} // verus!
