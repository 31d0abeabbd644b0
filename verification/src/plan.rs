//! Plans: lists of steps on processes and files. The library decides the
//! steps and their order; the caller carries them out one by one and stops
//! at the first that fails.

use crate::command::{CommandLine, CommandView};
use vstd::prelude::*;

verus! {

/// One thing to do.
#[derive(Clone, Debug, PartialEq, Eq)]
pub enum Step {
    /// Run a command; it fails unless the process ends in success.
    Run(CommandLine),
    /// Create a directory and the directories above it.
    CreateDirAll(String),
    /// Remove a file; that the file cannot be removed is no failure.
    RemoveFile(String),
    /// Remove a directory and what is in it, if the directory is there.
    RemoveDirIfPresent(String),
    /// Remove a directory and what is in it.
    RemoveDirAll(String),
    /// Copy a file or a directory with what is in it; a file that is in the
    /// way is a failure.
    CopyTree { from: String, to: String },
    /// Give a file or a directory another name.
    Rename { from: String, to: String },
    /// Write a text file.
    WriteFile { path: String, text: String },
    /// Check that a directory holds both sysroots with their archives.
    CheckLibcDir(String),
    /// Check that two directories are there; `message` is the failure's.
    RequireDirs { first: String, second: String, message: String },
    /// Post-process the binary `from` into `to`.
    PostProcess { from: String, to: String },
    /// Make `to` the file `from`: by a hard link, or by a copy where no link
    /// can be made.
    LinkOrCopy { from: String, to: String },
}

/// A step as plain values.
pub enum StepView {
    Run(CommandView),
    CreateDirAll(Seq<char>),
    RemoveFile(Seq<char>),
    RemoveDirIfPresent(Seq<char>),
    RemoveDirAll(Seq<char>),
    CopyTree { from: Seq<char>, to: Seq<char> },
    Rename { from: Seq<char>, to: Seq<char> },
    WriteFile { path: Seq<char>, text: Seq<char> },
    CheckLibcDir(Seq<char>),
    RequireDirs { first: Seq<char>, second: Seq<char>, message: Seq<char> },
    PostProcess { from: Seq<char>, to: Seq<char> },
    LinkOrCopy { from: Seq<char>, to: Seq<char> },
}

impl View for Step {
    type V = StepView;

    open spec fn view(&self) -> StepView {
        match *self {
            Step::Run(c) => StepView::Run(c@),
            Step::CreateDirAll(p) => StepView::CreateDirAll(p@),
            Step::RemoveFile(p) => StepView::RemoveFile(p@),
            Step::RemoveDirIfPresent(p) => StepView::RemoveDirIfPresent(p@),
            Step::RemoveDirAll(p) => StepView::RemoveDirAll(p@),
            Step::CopyTree { from, to } => StepView::CopyTree { from: from@, to: to@ },
            Step::Rename { from, to } => StepView::Rename { from: from@, to: to@ },
            Step::WriteFile { path, text } => StepView::WriteFile { path: path@, text: text@ },
            Step::CheckLibcDir(p) => StepView::CheckLibcDir(p@),
            Step::RequireDirs { first, second, message } => StepView::RequireDirs {
                first: first@,
                second: second@,
                message: message@,
            },
            Step::PostProcess { from, to } => StepView::PostProcess { from: from@, to: to@ },
            Step::LinkOrCopy { from, to } => StepView::LinkOrCopy { from: from@, to: to@ },
        }
    }
}

/// A step of a plan, with the context that its failure is reported with.
#[derive(Clone, Debug, PartialEq, Eq)]
pub struct PlanStep {
    pub step: Step,
    pub context: Option<String>,
}

/// A step of a plan as plain values.
pub struct PlanStepView {
    pub step: StepView,
    pub context: Option<Seq<char>>,
}

impl View for PlanStep {
    type V = PlanStepView;

    open spec fn view(&self) -> PlanStepView {
        PlanStepView {
            step: self.step@,
            context: match self.context {
                Some(c) => Some(c@),
                None => None,
            },
        }
    }
}

/// A step without context.
pub open spec fn bare(step: StepView) -> PlanStepView {
    PlanStepView { step, context: None }
}

/// A step with context.
pub open spec fn within(step: StepView, context: Seq<char>) -> PlanStepView {
    PlanStepView { step, context: Some(context) }
}

/// A plan as plain values.
pub open spec fn plan_view(plan: Seq<PlanStep>) -> Seq<PlanStepView> {
    plan.map_values(|s: PlanStep| s@)
}

/// Adds `step` to `plan`, without context.
pub fn push_step(plan: &mut Vec<PlanStep>, step: Step)
    ensures
        plan_view(final(plan)@) == plan_view(old(plan)@).push(bare(step@)),
{
    let item = PlanStep { step, context: None };
    assert(plan_view(plan@.push(item)) =~= plan_view(plan@).push(item@));
    plan.push(item);
}

/// Adds `step` to `plan`, with `context`.
pub fn push_step_within(plan: &mut Vec<PlanStep>, step: Step, context: String)
    ensures
        plan_view(final(plan)@) == plan_view(old(plan)@).push(within(step@, context@)),
{
    let item = PlanStep { step, context: Some(context) };
    assert(plan_view(plan@.push(item)) =~= plan_view(plan@).push(item@));
    plan.push(item);
}

/// Adds the steps of `more` to `plan`, in their order.
pub fn push_steps(plan: &mut Vec<PlanStep>, more: Vec<PlanStep>)
    ensures
        plan_view(final(plan)@) == plan_view(old(plan)@) + plan_view(more@),
{
    let ghost before = plan_view(plan@);
    let ghost added = plan_view(more@);
    let mut more = more;
    assert(plan@ + more@ =~= plan@ + more@);
    let ghost whole = plan@ + more@;
    plan.append(&mut more);
    assert(plan@ =~= whole);
    assert(plan_view(whole) =~= before + added);
}

} // verus!
