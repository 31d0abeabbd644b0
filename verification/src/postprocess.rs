//! The post-processing of a binary: where it is staged, when it is
//! processed again, which sections it keeps, how the names of its functions
//! are rewritten, and how the optimizer is called.

use crate::command::{plain, CommandLine};
use crate::path::{file_name_range, last_dot, with_extension, with_extension_spec};
use crate::plan::{
    bare, plan_view, push_step, push_step_within, within, PlanStep, PlanStepView, Step,
    StepView,
};
use crate::records::{is_wasm, CargoBuild, ManifestConfig, Profile, ProfileView};
use crate::text::{cat2, cat3, same};
use vstd::prelude::*;

verus! {

/// Where the binary is kept as the compiler left it.
pub open spec fn raw_path(artifact: Seq<char>) -> Seq<char> {
    with_extension_spec(artifact, "rustc.wasm"@)
}

/// Where the finished binary is kept from one build to the next.
pub open spec fn finalized_path(artifact: Seq<char>) -> Seq<char> {
    with_extension_spec(artifact, "wasi.wasm"@)
}

/// Where the binary is kept as the compiler left it.
pub fn raw_staging(artifact: &str) -> (p: String)
    ensures
        p@ == raw_path(artifact@),
{
    with_extension(artifact, "rustc.wasm")
}

/// Where the finished binary is kept from one build to the next.
pub fn finalized_staging(artifact: &str) -> (p: String)
    ensures
        p@ == finalized_path(artifact@),
{
    with_extension(artifact, "wasi.wasm")
}

/// Whether a binary is processed: always when the build tool has just built
/// it, else when no finished binary is kept from an earlier build.
pub open spec fn processing_needed(fresh: bool, finalized_exists: bool) -> bool {
    !fresh || !finalized_exists
}

/// The message that goes with a failure to process the binary staged at
/// `raw`.
pub open spec fn processing_context(raw: Seq<char>) -> Seq<char> {
    "failed to process wasm at `"@ + raw + "`"@
}

/// The steps for one binary. The produced file is moved aside in any case:
/// the build tool may share it through hard links, and it must not be
/// changed through the path it was produced at. Then it is processed, or
/// not; then the finished binary takes the produced file's place.
pub open spec fn artifact_plan_spec(artifact: Seq<char>, fresh: bool, finalized_exists: bool)
    -> Seq<PlanStepView> {
    let raw = raw_path(artifact);
    let finalized = finalized_path(artifact);
    seq![
        bare(StepView::RemoveFile(raw)),
        bare(StepView::Rename { from: artifact, to: raw }),
    ] + (if processing_needed(fresh, finalized_exists) {
        seq![within(StepView::PostProcess { from: raw, to: finalized }, processing_context(raw))]
    } else {
        Seq::empty()
    }) + seq![
        bare(StepView::RemoveFile(artifact)),
        bare(StepView::LinkOrCopy { from: finalized, to: artifact }),
    ]
}

/// The steps for one binary. `fresh` says whether the build tool found the
/// binary up to date, `finalized_exists` whether a finished binary is kept
/// from an earlier build.
pub fn artifact_plan(artifact: &str, fresh: bool, finalized_exists: bool) -> (plan: Vec<PlanStep>)
    ensures
        plan_view(plan@) == artifact_plan_spec(artifact@, fresh, finalized_exists),
{
    let mut plan: Vec<PlanStep> = Vec::new();
    assert(plan_view(plan@) =~= Seq::empty());
    push_step(&mut plan, Step::RemoveFile(raw_staging(artifact)));
    push_step(&mut plan, Step::Rename { from: artifact.to_owned(), to: raw_staging(artifact) });
    if !fresh || !finalized_exists {
        let raw = raw_staging(artifact);
        let context = cat3("failed to process wasm at `", raw.as_str(), "`");
        push_step_within(
            &mut plan,
            Step::PostProcess { from: raw, to: finalized_staging(artifact) },
            context,
        );
    }
    push_step(&mut plan, Step::RemoveFile(artifact.to_owned()));
    push_step(
        &mut plan,
        Step::LinkOrCopy { from: finalized_staging(artifact), to: artifact.to_owned() },
    );
    assert(plan_view(plan@) =~= artifact_plan_spec(artifact@, fresh, finalized_exists));
    plan
}

/// The files of a directory tree: what each path holds.
pub type Files = Map<Seq<char>, Seq<u8>>;

/// The files after a step of an artifact's plan went through, where
/// post-processing turns the bytes `b` into `processed(b)`.
pub open spec fn after_step(files: Files, step: StepView, processed: spec_fn(Seq<u8>) -> Seq<u8>)
    -> Files {
    match step {
        StepView::RemoveFile(path) => files.remove(path),
        StepView::Rename { from, to } => files.remove(from).insert(to, files[from]),
        StepView::PostProcess { from, to } => files.insert(to, processed(files[from])),
        StepView::LinkOrCopy { from, to } => files.insert(to, files[from]),
        _ => files,
    }
}

/// The files after every step of a plan went through.
pub open spec fn after_plan(
    files: Files,
    plan: Seq<PlanStepView>,
    processed: spec_fn(Seq<u8>) -> Seq<u8>,
) -> Files
    decreases plan.len(),
{
    if plan.len() == 0 {
        files
    } else {
        after_step(after_plan(files, plan.drop_last(), processed), plan.last().step, processed)
    }
}

/// Whether a plan holds a step that processes a binary.
pub open spec fn processes(plan: Seq<PlanStepView>) -> bool {
    exists|i: int| 0 <= i < plan.len() && (#[trigger] plan[i]).step is PostProcess
}

/// The three paths of a binary of the target differ from each other.
pub proof fn lemma_staging_paths_differ(artifact: Seq<char>)
    requires
        is_wasm(artifact),
    ensures
        raw_path(artifact) != finalized_path(artifact),
        raw_path(artifact) != artifact,
        finalized_path(artifact) != artifact,
{
    reveal_strlit("wasm");
    reveal_strlit("rustc.wasm");
    reveal_strlit("wasi.wasm");
    let (s, e) = file_name_range(artifact)->0;
    let d = last_dot(artifact, s, e);
    lemma_name_range_bounds(artifact);
    lemma_last_dot_bounds(artifact, s, e);
    let ext = artifact.subrange(d + 1, e);
    assert(ext == "wasm"@);
    assert(ext.len() == 4);
    assert(ext[0] == 'w' && ext[1] == 'a' && ext[2] == 's' && ext[3] == 'm');
    let stem = artifact.subrange(0, d);
    let raw = stem.push('.') + "rustc.wasm"@;
    let fin = stem.push('.') + "wasi.wasm"@;
    assert(raw_path(artifact) == raw);
    assert(finalized_path(artifact) == fin);
    assert(raw[d + 1] == 'r');
    assert(fin[d + 1] == 'w');
    assert(fin[d + 4] == 'i');
    assert(artifact[d + 1] == ext[0]);
    assert(artifact[d + 4] == ext[3]);
}

proof fn lemma_last_dot_bounds(p: Seq<char>, s: int, e: int)
    requires
        0 <= s <= e <= p.len(),
    ensures
        s - 1 <= last_dot(p, s, e) < e || (e == s && last_dot(p, s, e) == s - 1),
        last_dot(p, s, e) >= s ==> p[last_dot(p, s, e)] == '.',
    decreases e,
{
    if s < e && p[e - 1] != '.' {
        lemma_last_dot_bounds(p, s, e - 1);
    }
}

proof fn lemma_trimmed_end_bounds(p: Seq<char>, floor: int, e: int)
    requires
        0 <= floor <= e <= p.len(),
    ensures
        floor <= crate::path::trimmed_end(p, floor, e) <= e,
    decreases e,
{
    if crate::path::skipped_before(p, floor, e) {
        lemma_trimmed_end_bounds(p, floor, e - 1);
    }
}

proof fn lemma_segment_start_bounds(p: Seq<char>, floor: int, e: int)
    requires
        0 <= floor <= e <= p.len(),
    ensures
        floor <= crate::path::segment_start(p, floor, e) <= e,
    decreases e,
{
    if floor < e && p[e - 1] != '/' {
        lemma_segment_start_bounds(p, floor, e - 1);
    }
}

proof fn lemma_name_range_bounds(p: Seq<char>)
    ensures
        file_name_range(p) matches Some((s, e)) ==> 0 <= s <= e <= p.len(),
{
    let f = crate::path::body_start(p);
    if f <= p.len() {
        lemma_trimmed_end_bounds(p, f, p.len() as int);
        let e = crate::path::trimmed_end(p, f, p.len() as int);
        lemma_segment_start_bounds(p, f, e);
    }
}

/// A binary that the build tool found up to date, and of which a finished
/// binary is kept, is not processed again: its plan holds no processing
/// step, and once the plan went through the binary holds the bytes that
/// were kept, whatever processing would have made of it.
pub proof fn lemma_fresh_artifact_is_reused(
    files: Files,
    artifact: Seq<char>,
    processed: spec_fn(Seq<u8>) -> Seq<u8>,
)
    requires
        is_wasm(artifact),
        files.contains_key(finalized_path(artifact)),
    ensures
        !processes(artifact_plan_spec(artifact, true, true)),
        after_plan(files, artifact_plan_spec(artifact, true, true), processed)[artifact]
            == files[finalized_path(artifact)],
        after_plan(files, artifact_plan_spec(artifact, true, true), processed)[finalized_path(
            artifact,
        )] == files[finalized_path(artifact)],
{
    lemma_staging_paths_differ(artifact);
    let plan = artifact_plan_spec(artifact, true, true);
    let raw = raw_path(artifact);
    let fin = finalized_path(artifact);
    assert(plan =~= seq![
        bare(StepView::RemoveFile(raw)),
        bare(StepView::Rename { from: artifact, to: raw }),
        bare(StepView::RemoveFile(artifact)),
        bare(StepView::LinkOrCopy { from: fin, to: artifact }),
    ]);
    let p3 = plan.drop_last();
    let p2 = p3.drop_last();
    let p1 = p2.drop_last();
    let p0 = p1.drop_last();
    assert(p0.len() == 0);
    let f0 = after_plan(files, p0, processed);
    let f1 = after_plan(files, p1, processed);
    let f2 = after_plan(files, p2, processed);
    let f3 = after_plan(files, p3, processed);
    let f4 = after_plan(files, plan, processed);
    assert(f0 == files);
    assert(f1 == after_step(f0, plan[0].step, processed));
    assert(f2 == after_step(f1, plan[1].step, processed));
    assert(f3 == after_step(f2, plan[2].step, processed));
    assert(f4 == after_step(f3, plan[3].step, processed));
    assert(f1[fin] == files[fin]);
    assert(f2[fin] == files[fin]);
    assert(f3[fin] == files[fin]);
}

/// A binary that is processed ends up, at the path it was produced at, as
/// what processing makes of it, and the bytes that the compiler wrote are
/// kept at the raw staging path.
pub proof fn lemma_new_artifact_is_processed(
    files: Files,
    artifact: Seq<char>,
    fresh: bool,
    finalized_exists: bool,
    processed: spec_fn(Seq<u8>) -> Seq<u8>,
)
    requires
        is_wasm(artifact),
        processing_needed(fresh, finalized_exists),
    ensures
        processes(artifact_plan_spec(artifact, fresh, finalized_exists)),
        after_plan(files, artifact_plan_spec(artifact, fresh, finalized_exists), processed)[artifact]
            == processed(files[artifact]),
        after_plan(
            files,
            artifact_plan_spec(artifact, fresh, finalized_exists),
            processed,
        )[raw_path(artifact)] == files[artifact],
{
    lemma_staging_paths_differ(artifact);
    let plan = artifact_plan_spec(artifact, fresh, finalized_exists);
    let raw = raw_path(artifact);
    let fin = finalized_path(artifact);
    assert(plan =~= seq![
        bare(StepView::RemoveFile(raw)),
        bare(StepView::Rename { from: artifact, to: raw }),
        within(StepView::PostProcess { from: raw, to: fin }, processing_context(raw)),
        bare(StepView::RemoveFile(artifact)),
        bare(StepView::LinkOrCopy { from: fin, to: artifact }),
    ]);
    assert(plan[2].step is PostProcess);
    let p4 = plan.drop_last();
    let p3 = p4.drop_last();
    let p2 = p3.drop_last();
    let p1 = p2.drop_last();
    let p0 = p1.drop_last();
    assert(p0.len() == 0);
    let f0 = after_plan(files, p0, processed);
    let f1 = after_plan(files, p1, processed);
    let f2 = after_plan(files, p2, processed);
    let f3 = after_plan(files, p3, processed);
    let f4 = after_plan(files, p4, processed);
    let f5 = after_plan(files, plan, processed);
    assert(f0 == files);
    assert(f1 == after_step(f0, plan[0].step, processed));
    assert(f2 == after_step(f1, plan[1].step, processed));
    assert(f3 == after_step(f2, plan[2].step, processed));
    assert(f4 == after_step(f3, plan[3].step, processed));
    assert(f5 == after_step(f4, plan[4].step, processed));
    assert(f1[artifact] == files[artifact]);
    assert(f2[raw] == files[artifact]);
    assert(f3[fin] == processed(files[artifact]));
    assert(f3[raw] == files[artifact]);
    assert(f4[fin] == processed(files[artifact]));
    assert(f4[raw] == files[artifact]);
}

/// Which sections of a binary are kept.
#[derive(Clone, Copy, Debug, PartialEq, Eq, Structural)]
pub struct SectionPolicy {
    /// The sections of debug information.
    pub dwarf: bool,
    /// The name section.
    pub names: bool,
    /// The producers section.
    pub producers: bool,
}

/// Which sections are kept of a binary built with `profile`: the debug
/// sections if and only if the profile has debug information; the name
/// section if the profile has debug information or the manifest does not say
/// no; the producers section by the same rule with its own setting.
pub open spec fn section_policy_spec(profile: ProfileView, config: ManifestConfig)
    -> SectionPolicy {
    SectionPolicy {
        dwarf: profile.debuginfo is Some,
        names: CargoBuild::name_section_spec(config, profile),
        producers: CargoBuild::producers_section_spec(config, profile),
    }
}

/// Which sections are kept of a binary built with `profile`.
pub fn section_policy(profile: &Profile, build: &CargoBuild) -> (policy: SectionPolicy)
    ensures
        policy == section_policy_spec(profile@, build.manifest_config),
{
    SectionPolicy {
        dwarf: profile.debuginfo.is_some(),
        names: build.enable_name_section(profile),
        producers: build.enable_producers_section(profile),
    }
}

/// A binary built with debug information keeps its debug sections and its
/// name section, whatever the manifest says. A binary built without keeps no
/// debug section, and keeps its name section unless the manifest says no.
pub proof fn lemma_sections_follow_profile(profile: ProfileView, config: ManifestConfig)
    ensures
        profile.debuginfo is Some ==> section_policy_spec(profile, config).dwarf
            && section_policy_spec(profile, config).names && section_policy_spec(
            profile,
            config,
        ).producers,
        profile.debuginfo is None ==> !section_policy_spec(profile, config).dwarf,
        profile.debuginfo is None ==> (section_policy_spec(profile, config).names
            <==> config.wasm_name_section != Some(false)),
        profile.debuginfo is None ==> (section_policy_spec(profile, config).producers
            <==> config.wasm_producers_section != Some(false)),
{
}

/// Whether the optimizer is left out: for a binary with debug information,
/// which it would spoil; for one that was not optimized at all; and where
/// the manifest says so.
pub open spec fn optimizer_skipped(profile: ProfileView, config: ManifestConfig) -> bool {
    profile.debuginfo is Some || profile.opt_level == "0"@ || config.wasm_opt == Some(false)
}

/// Whether the optimizer is left out for a binary built with `profile`.
/// The processed binary is then the finished one.
pub fn wasm_opt_skipped(profile: &Profile, build: &CargoBuild) -> (r: bool)
    ensures
        r == optimizer_skipped(profile@, build.manifest_config),
{
    if profile.debuginfo.is_some() || same(profile.opt_level.as_str(), "0") {
        return true;
    }
    match build.manifest_config.wasm_opt {
        Some(run) => !run,
        None => false,
    }
}

/// The arguments of the optimizer: the input, the level, the output, the
/// removal of the producers section, the transform that the runtime's way
/// of suspending code needs, and the keeping or dropping of debug names,
/// which follows the name section.
pub open spec fn wasm_opt_arguments(
    input: Seq<char>,
    output: Seq<char>,
    profile: ProfileView,
    config: ManifestConfig,
) -> Seq<Seq<char>> {
    seq![
        input,
        "-O"@ + profile.opt_level,
        "-o"@,
        output,
        "--strip-producers"@,
        "--asyncify"@,
        if CargoBuild::name_section_spec(config, profile) {
            "--debuginfo"@
        } else {
            "--strip-debug"@
        },
    ]
}

/// The command that optimizes the processed binary `input` into `output`
/// with the optimizer `tool`; none where the optimizer is left out and the
/// processed binary is the finished one.
pub fn run_wasm_opt(tool: &str, input: &str, output: &str, profile: &Profile, build: &CargoBuild)
    -> (r: Option<CommandLine>)
    ensures
        r is None <==> optimizer_skipped(profile@, build.manifest_config),
        r matches Some(c) ==> c@ == plain(
            tool@,
            wasm_opt_arguments(input@, output@, profile@, build.manifest_config),
        ),
{
    if profile.debuginfo.is_some() || same(profile.opt_level.as_str(), "0") {
        return None;
    }
    match build.manifest_config.wasm_opt {
        Some(run) => {
            if !run {
                return None;
            }
        },
        None => {},
    }
    let level = cat2("-O", profile.opt_level.as_str());
    let c = CommandLine::new(tool).arg(input).arg(level.as_str()).arg("-o").arg(output).arg(
        "--strip-producers",
    ).arg("--asyncify").arg(
        if build.enable_name_section(profile) {
            "--debuginfo"
        } else {
            "--strip-debug"
        },
    );
    assert(c@.args =~= wasm_opt_arguments(input@, output@, profile@, build.manifest_config));
    Some(c)
}

/// The context of a failure of the optimizer.
pub fn wasm_opt_context() -> (s: &'static str)
    ensures
        s@ == "`wasm-opt` failed to execute"@,
{
    "`wasm-opt` failed to execute"
}

} // verus!
