//! The structured output of the build tool: which lines are records, and
//! what the records of one build add up to.

use crate::command::{plain, CommandLine};
use crate::error::{Error, ErrorKind};
use crate::path::{extension, extension_spec, join, join_spec};
use crate::text::{clone_strings, same, split_words, strs, to_chars, words_spec};
use vstd::prelude::*;

verus! {

/// The settings under which a binary was compiled.
#[derive(Clone, Debug, PartialEq, Eq)]
pub struct Profile {
    /// The optimization level, as the build tool names it.
    pub opt_level: String,
    /// The level of debug information; none if there is none.
    pub debuginfo: Option<u32>,
    /// Whether the binary is a test.
    pub test: bool,
}

/// A profile as plain values.
pub struct ProfileView {
    pub opt_level: Seq<char>,
    pub debuginfo: Option<u32>,
    pub test: bool,
}

impl View for Profile {
    type V = ProfileView;

    open spec fn view(&self) -> ProfileView {
        ProfileView { opt_level: self.opt_level@, debuginfo: self.debuginfo, test: self.test }
    }
}

impl Profile {
    /// A copy of the profile.
    pub fn copy(&self) -> (p: Profile)
        ensures
            p@ == self@,
    {
        Profile { opt_level: self.opt_level.clone(), debuginfo: self.debuginfo, test: self.test }
    }
}

/// What the project's manifest says of post-processing. A setting that is
/// not given counts as `true`.
#[derive(Clone, Copy, Debug, PartialEq, Eq)]
pub struct ManifestConfig {
    /// Whether the optimizer runs.
    pub wasm_opt: Option<bool>,
    /// Whether the name section is kept.
    pub wasm_name_section: Option<bool>,
    /// Whether the producers section is kept.
    pub wasm_producers_section: Option<bool>,
}

impl Default for ManifestConfig {
    fn default() -> (c: ManifestConfig)
        ensures
            c.wasm_opt is None,
            c.wasm_name_section is None,
            c.wasm_producers_section is None,
    {
        ManifestConfig { wasm_opt: None, wasm_name_section: None, wasm_producers_section: None }
    }
}

/// One record of the build tool's output.
#[derive(Clone, Debug, PartialEq, Eq)]
pub enum CargoMessage {
    /// A binary, or several, was produced.
    CompilerArtifact { filenames: Vec<String>, package_id: String, profile: Profile, fresh: bool },
    /// A build script ran.
    BuildScriptExecuted,
    /// The build tool asked for a binary to be run with these arguments.
    RunWithArgs { args: Vec<String> },
    /// The build is over.
    BuildFinished,
}

/// A record as plain values.
pub enum MessageView {
    CompilerArtifact {
        filenames: Seq<Seq<char>>,
        package_id: Seq<char>,
        profile: ProfileView,
        fresh: bool,
    },
    BuildScriptExecuted,
    RunWithArgs { args: Seq<Seq<char>> },
    BuildFinished,
}

impl View for CargoMessage {
    type V = MessageView;

    open spec fn view(&self) -> MessageView {
        match *self {
            CargoMessage::CompilerArtifact {
                filenames,
                package_id,
                profile,
                fresh,
            } => MessageView::CompilerArtifact {
                filenames: strs(filenames@),
                package_id: package_id@,
                profile: profile@,
                fresh,
            },
            CargoMessage::BuildScriptExecuted => MessageView::BuildScriptExecuted,
            CargoMessage::RunWithArgs { args } => MessageView::RunWithArgs { args: strs(args@) },
            CargoMessage::BuildFinished => MessageView::BuildFinished,
        }
    }
}

/// A binary of the target, with the profile it was built with and whether
/// the build tool found it up to date.
pub struct ArtifactView {
    pub path: Seq<char>,
    pub profile: ProfileView,
    pub fresh: bool,
}

/// What one build came to.
#[derive(Clone, Debug, PartialEq, Eq)]
pub struct CargoBuild {
    /// The version of `wasm-bindgen` that the build uses, if it was seen.
    pub wasm_bindgen: Option<String>,
    /// The binaries of the target, in the order of the records.
    pub wasms: Vec<(String, Profile, bool)>,
    /// The runs that the build tool asked for, in the order of the records.
    pub runs: Vec<Vec<String>>,
    /// What the manifest says of post-processing.
    pub manifest_config: ManifestConfig,
}

/// The result of a build as plain values.
pub struct BuildView {
    pub wasm_bindgen: Option<Seq<char>>,
    pub wasms: Seq<ArtifactView>,
    pub runs: Seq<Seq<Seq<char>>>,
    pub manifest_config: ManifestConfig,
}

/// The binaries of a build as plain values.
pub open spec fn artifacts(v: Seq<(String, Profile, bool)>) -> Seq<ArtifactView> {
    v.map_values(
        |a: (String, Profile, bool)| ArtifactView { path: a.0@, profile: a.1@, fresh: a.2 },
    )
}

/// The runs of a build as plain values.
pub open spec fn all_runs(v: Seq<Vec<String>>) -> Seq<Seq<Seq<char>>> {
    v.map_values(|r: Vec<String>| strs(r@))
}

impl View for CargoBuild {
    type V = BuildView;

    open spec fn view(&self) -> BuildView {
        BuildView {
            wasm_bindgen: match self.wasm_bindgen {
                Some(v) => Some(v@),
                None => None,
            },
            wasms: artifacts(self.wasms@),
            runs: all_runs(self.runs@),
            manifest_config: self.manifest_config,
        }
    }
}

/// Whether a file is a binary of the target: whether its extension is
/// `wasm`.
pub open spec fn is_wasm(file: Seq<char>) -> bool {
    extension_spec(file) == Some("wasm"@)
}

/// Those of `filenames` that are binaries of the target, each with
/// `profile` and `fresh`, in their order.
pub open spec fn wasm_artifacts(filenames: Seq<Seq<char>>, profile: ProfileView, fresh: bool)
    -> Seq<ArtifactView>
    decreases filenames.len(),
{
    if filenames.len() == 0 {
        Seq::empty()
    } else {
        let before = wasm_artifacts(filenames.drop_last(), profile, fresh);
        if is_wasm(filenames.last()) {
            before.push(ArtifactView { path: filenames.last(), profile, fresh })
        } else {
            before
        }
    }
}

/// The version of `wasm-bindgen` that a package identifier names: its second
/// word, if its first word is `wasm-bindgen`.
pub open spec fn bindgen_version(package_id: Seq<char>) -> Option<Seq<char>> {
    let words = words_spec(package_id);
    if words.len() >= 2 && words[0] == "wasm-bindgen"@ {
        Some(words[1])
    } else {
        None
    }
}

/// The result of a build after one more record: a produced binary adds the
/// files with the extension of the target, in their order, and may tell the
/// version of `wasm-bindgen`; a run that was asked for is added to the runs;
/// the other records change nothing.
pub open spec fn record_spec(build: BuildView, message: MessageView) -> BuildView {
    match message {
        MessageView::CompilerArtifact { filenames, package_id, profile, fresh } => BuildView {
            wasm_bindgen: match bindgen_version(package_id) {
                Some(v) => Some(v),
                None => build.wasm_bindgen,
            },
            wasms: build.wasms + wasm_artifacts(filenames, profile, fresh),
            ..build
        },
        MessageView::RunWithArgs { args } => BuildView { runs: build.runs.push(args), ..build },
        _ => build,
    }
}

/// The result of a build after `messages`, in their order.
pub open spec fn fold_spec(build: BuildView, messages: Seq<MessageView>) -> BuildView
    decreases messages.len(),
{
    if messages.len() == 0 {
        build
    } else {
        record_spec(fold_spec(build, messages.drop_last()), messages.last())
    }
}

/// Whether every binary of a list has the extension of the target.
pub open spec fn all_wasm(wasms: Seq<ArtifactView>) -> bool {
    forall|i: int| 0 <= i < wasms.len() ==> is_wasm(#[trigger] wasms[i].path)
}

proof fn lemma_wasm_artifacts(filenames: Seq<Seq<char>>, profile: ProfileView, fresh: bool)
    ensures
        all_wasm(wasm_artifacts(filenames, profile, fresh)),
        forall|i: int|
            0 <= i < wasm_artifacts(filenames, profile, fresh).len() ==> filenames.contains(
                #[trigger] wasm_artifacts(filenames, profile, fresh)[i].path,
            ),
    decreases filenames.len(),
{
    if filenames.len() > 0 {
        let init = filenames.drop_last();
        lemma_wasm_artifacts(init, profile, fresh);
        let before = wasm_artifacts(init, profile, fresh);
        let all = wasm_artifacts(filenames, profile, fresh);
        assert forall|i: int| 0 <= i < all.len() implies filenames.contains(
            #[trigger] all[i].path,
        ) by {
            if i < before.len() {
                let k = choose|k: int| 0 <= k < init.len() && init[k] == before[i].path;
                assert(filenames[k] == all[i].path);
            } else {
                assert(filenames[filenames.len() - 1] == all[i].path);
            }
        }
    }
}

/// Whatever the records, a build holds only binaries with the extension of
/// the target: no record adds another file.
pub proof fn lemma_only_wasm_is_kept(build: BuildView, messages: Seq<MessageView>)
    requires
        all_wasm(build.wasms),
    ensures
        all_wasm(fold_spec(build, messages).wasms),
    decreases messages.len(),
{
    if messages.len() > 0 {
        lemma_only_wasm_is_kept(build, messages.drop_last());
        let before = fold_spec(build, messages.drop_last());
        match messages.last() {
            MessageView::CompilerArtifact { filenames, package_id, profile, fresh } => {
                lemma_wasm_artifacts(filenames, profile, fresh);
            },
            _ => {},
        }
    }
}

/// The runs that `messages` ask for, in the order of the records.
pub open spec fn runs_of(messages: Seq<MessageView>) -> Seq<Seq<Seq<char>>>
    decreases messages.len(),
{
    if messages.len() == 0 {
        Seq::empty()
    } else {
        match messages.last() {
            MessageView::RunWithArgs { args } => runs_of(messages.drop_last()).push(args),
            _ => runs_of(messages.drop_last()),
        }
    }
}

/// The runs of a build are the runs that its records ask for, in the order
/// of the records, after those that were known before.
pub proof fn lemma_runs_keep_their_order(build: BuildView, messages: Seq<MessageView>)
    ensures
        fold_spec(build, messages).runs == build.runs + runs_of(messages),
    decreases messages.len(),
{
    if messages.len() > 0 {
        lemma_runs_keep_their_order(build, messages.drop_last());
        assert(fold_spec(build, messages).runs =~= build.runs + runs_of(messages));
    } else {
        assert(build.runs + runs_of(messages) =~= build.runs);
    }
}

/// The records of a list as plain values.
pub open spec fn message_views(v: Seq<CargoMessage>) -> Seq<MessageView> {
    v.map_values(|m: CargoMessage| m@)
}

/// The result of a build of which nothing is known yet.
pub open spec fn empty_build() -> BuildView {
    BuildView {
        wasm_bindgen: None,
        wasms: Seq::empty(),
        runs: Seq::empty(),
        manifest_config: ManifestConfig {
            wasm_opt: None,
            wasm_name_section: None,
            wasm_producers_section: None,
        },
    }
}

/// Whether a line of the build tool's output is a record: whether it starts
/// with an opening brace. Any other line is text for the user.
pub fn is_record_line(line: &str) -> (r: bool)
    ensures
        r == (line@.len() > 0 && line@[0] == '{'),
{
    let x = to_chars(line);
    x.len() > 0 && x[0] == '{'
}

/// The failure for a record that could not be decoded, `reason` saying why.
pub fn parse_failure(line: &str, reason: &str) -> (e: Error)
    ensures
        e.kind is Parse,
        e.context@.len() == 0,
        e.message@ == "failed to parse "@ + line@ + ": "@ + reason@,
{
    let mut msg = "failed to parse ".to_owned();
    msg.append(line);
    msg.append(": ");
    msg.append(reason);
    Error::new(ErrorKind::Parse, msg)
}

/// The version of `wasm-bindgen` that a package identifier names.
pub fn wasm_bindgen_version(package_id: &str) -> (r: Option<String>)
    ensures
        match r {
            Some(v) => bindgen_version(package_id@) == Some(v@),
            None => bindgen_version(package_id@) is None,
        },
{
    let words = split_words(package_id);
    if words.len() >= 2 && same(words[0].as_str(), "wasm-bindgen") {
        assert(strs(words@)[0] == words@[0]@);
        assert(strs(words@)[1] == words@[1]@);
        Some(words[1].clone())
    } else {
        if words.len() >= 2 {
            assert(strs(words@)[0] == words@[0]@);
        }
        None
    }
}

impl CargoBuild {
    /// The result of a build of which nothing is known yet.
    pub fn new() -> (b: CargoBuild)
        ensures
            b@ == empty_build(),
    {
        let b = CargoBuild {
            wasm_bindgen: None,
            wasms: Vec::new(),
            runs: Vec::new(),
            manifest_config: ManifestConfig::default(),
        };
        assert(b@.wasms =~= Seq::empty());
        assert(b@.runs =~= Seq::empty());
        b
    }

    /// Whether the name section is kept for a binary built with
    /// `profile`: always with debug information, else unless the manifest
    /// says no.
    pub open spec fn name_section_spec(config: ManifestConfig, profile: ProfileView) -> bool {
        profile.debuginfo is Some || config.wasm_name_section != Some(false)
    }

    /// Whether the producers section is kept for a binary built with
    /// `profile`: always with debug information, else unless the manifest
    /// says no.
    pub open spec fn producers_section_spec(config: ManifestConfig, profile: ProfileView)
        -> bool {
        profile.debuginfo is Some || config.wasm_producers_section != Some(false)
    }

    /// Whether the name section is kept for a binary built with `profile`.
    pub fn enable_name_section(&self, profile: &Profile) -> (r: bool)
        ensures
            r == Self::name_section_spec(self.manifest_config, profile@),
    {
        profile.debuginfo.is_some() || match self.manifest_config.wasm_name_section {
            Some(keep) => keep,
            None => true,
        }
    }

    /// Whether the producers section is kept for a binary built with
    /// `profile`.
    pub fn enable_producers_section(&self, profile: &Profile) -> (r: bool)
        ensures
            r == Self::producers_section_spec(self.manifest_config, profile@),
    {
        profile.debuginfo.is_some() || match self.manifest_config.wasm_producers_section {
            Some(keep) => keep,
            None => true,
        }
    }

    /// Takes one more record into the result.
    pub fn record(&mut self, message: &CargoMessage)
        ensures
            final(self)@ == record_spec(old(self)@, message@),
    {
        let ghost before = self@;
        match message {
            CargoMessage::CompilerArtifact { filenames, package_id, profile, fresh } => {
                let fresh: bool = *fresh;
                match wasm_bindgen_version(package_id.as_str()) {
                    Some(v) => {
                        self.wasm_bindgen = Some(v);
                    },
                    None => {},
                }
                let ghost names = strs(filenames@);
                let mut i: usize = 0;
                assert(before.wasms + wasm_artifacts(names.take(0), profile@, fresh)
                    =~= before.wasms);
                while i < filenames.len()
                    invariant
                        i <= filenames.len(),
                        names == strs(filenames@),
                        artifacts(self.wasms@) == before.wasms + wasm_artifacts(
                            names.take(i as int),
                            profile@,
                            fresh,
                        ),
                        all_runs(self.runs@) == before.runs,
                        self.manifest_config == before.manifest_config,
                        self@.wasm_bindgen == match bindgen_version(package_id@) {
                            Some(v) => Some(v),
                            None => before.wasm_bindgen,
                        },
                    decreases filenames.len() - i,
                {
                    let file = filenames[i].as_str();
                    proof {
                        assert(names.take(i + 1).drop_last() =~= names.take(i as int));
                        assert(names.take(i + 1).last() == file@);
                    }
                    let wasm = match extension(file) {
                        Some(ext) => same(ext.as_str(), "wasm"),
                        None => false,
                    };
                    if wasm {
                        let item = (filenames[i].clone(), profile.copy(), fresh);
                        proof {
                            let v = ArtifactView { path: file@, profile: profile@, fresh };
                            assert(artifacts(self.wasms@.push(item)) =~= artifacts(
                                self.wasms@,
                            ).push(v));
                            assert(before.wasms + wasm_artifacts(
                                names.take(i + 1),
                                profile@,
                                fresh,
                            ) =~= (before.wasms + wasm_artifacts(
                                names.take(i as int),
                                profile@,
                                fresh,
                            )).push(v));
                        }
                        self.wasms.push(item);
                    }
                    i += 1;
                }
                assert(names.take(filenames.len() as int) =~= names);
            },
            CargoMessage::RunWithArgs { args } => {
                let run = clone_strings(args);
                assert(all_runs(self.runs@.push(run)) =~= all_runs(self.runs@).push(strs(args@)));
                self.runs.push(run);
            },
            CargoMessage::BuildScriptExecuted => {},
            CargoMessage::BuildFinished => {},
        }
    }

    /// Takes in what decoding made of the record line `line`: the record, or
    /// the reason why the line holds none. A line that starts like a record
    /// and cannot be decoded is a failure, and the result of the build is
    /// then left as it was.
    pub fn decoded(&mut self, line: &str, outcome: Result<CargoMessage, String>) -> (r: Result<
        (),
        Error,
    >)
        ensures
            match outcome {
                Ok(m) => r is Ok && final(self)@ == record_spec(old(self)@, m@),
                Err(reason) => final(self)@ == old(self)@ && (r matches Err(e) && e.kind is Parse
                    && e.context@.len() == 0 && e.message@ == "failed to parse "@ + line@ + ": "@
                    + reason@),
            },
    {
        match outcome {
            Ok(m) => {
                self.record(&m);
                Ok(())
            },
            Err(reason) => Err(parse_failure(line, reason.as_str())),
        }
    }

    /// Takes what the manifest says of post-processing, if it says anything.
    pub fn configure(&mut self, manifest: Option<ManifestConfig>)
        ensures
            final(self)@ == (BuildView {
                manifest_config: match manifest {
                    Some(c) => c,
                    None => old(self)@.manifest_config,
                },
                ..old(self)@
            }),
    {
        match manifest {
            Some(c) => {
                self.manifest_config = c;
            },
            None => {},
        }
    }
}

/// The result of a build whose records are `messages`, in their order.
pub fn execute_cargo(messages: &Vec<CargoMessage>) -> (build: CargoBuild)
    ensures
        build@ == fold_spec(empty_build(), message_views(messages@)),
{
    let mut build = CargoBuild::new();
    let ghost all = message_views(messages@);
    let mut i: usize = 0;
    while i < messages.len()
        invariant
            i <= messages.len(),
            all == message_views(messages@),
            build@ == fold_spec(empty_build(), all.take(i as int)),
        decreases messages.len() - i,
    {
        proof {
            assert(all.take(i + 1).drop_last() =~= all.take(i as int));
            assert(all.take(i + 1).last() == messages@[i as int]@);
        }
        build.record(&messages[i]);
        i += 1;
    }
    assert(all.take(messages.len() as int) =~= all);
    build
}

/// The command that asks the build tool for the root of the workspace.
pub fn metadata_command() -> (c: CommandLine)
    ensures
        c@ == plain("cargo"@, seq!["metadata"@, "--no-deps"@, "--format-version=1"@]),
{
    let c = CommandLine::new("cargo").arg("metadata").arg("--no-deps").arg("--format-version=1");
    assert(c@.args =~= seq!["metadata"@, "--no-deps"@, "--format-version=1"@]);
    c
}

/// The manifest of the workspace whose root is `workspace_root`.
pub fn manifest_path(workspace_root: &str) -> (p: String)
    ensures
        p@ == join_spec(workspace_root@, "Cargo.toml"@),
{
    join(workspace_root, "Cargo.toml")
}

} // verus!
