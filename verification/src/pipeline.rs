//! The steps of a build and the rules for carrying them out.
//!
//! A driver asks the [`Pipeline`] for the next step, performs it, and reports
//! what happened. The pipeline decides whether the build goes on.

use vstd::prelude::*;
use crate::invocation::{Invocation, InvocationView};

verus! {

/// One of the two template directories that are copied into a project.
#[derive(Debug, Clone, Copy, PartialEq, Eq, Structural)]
pub enum TemplatePhase {
    /// Copied before anything is installed. Optional scaffolding.
    BeforeInstall,
    /// Copied as the last step. An essential deliverable.
    AfterInstall,
}

impl TemplatePhase {
    /// The name of the directory, below the stack's template directory.
    pub open spec fn dir_name_spec(self) -> Seq<char> {
        match self {
            TemplatePhase::BeforeInstall => "before_install"@,
            TemplatePhase::AfterInstall => "after_install"@,
        }
    }

    /// The name of the directory, below the stack's template directory.
    pub fn dir_name(self) -> (name: &'static str)
        ensures
            name@ == self.dir_name_spec(),
    {
        match self {
            TemplatePhase::BeforeInstall => "before_install",
            TemplatePhase::AfterInstall => "after_install",
        }
    }
}

/// One external operation of a build.
#[derive(Debug, PartialEq, Eq)]
pub enum Step {
    /// Create the project root, with its parents.
    CreateRoot,
    /// Create this folder below the project root, with its parents.
    CreateFolder(String),
    /// Make the project root the working directory.
    EnterRoot,
    /// Copy a template directory into the project root.
    CopyTemplates(TemplatePhase),
    /// Run a command to completion, capturing what it prints.
    Run(Invocation),
    /// Start a command and wait for it.
    Spawn(Invocation),
    /// Ask the operator the question; start the command and wait for it if
    /// the answer is yes.
    Offer(String, Invocation),
}

/// What a [`Step`] says, as mathematical values.
pub enum StepView {
    CreateRoot,
    CreateFolder(Seq<char>),
    EnterRoot,
    CopyTemplates(TemplatePhase),
    Run(InvocationView),
    Spawn(InvocationView),
    Offer(Seq<char>, InvocationView),
}

impl View for Step {
    type V = StepView;

    open spec fn view(&self) -> StepView {
        match self {
            Step::CreateRoot => StepView::CreateRoot,
            Step::CreateFolder(folder) => StepView::CreateFolder(folder@),
            Step::EnterRoot => StepView::EnterRoot,
            Step::CopyTemplates(phase) => StepView::CopyTemplates(*phase),
            Step::Run(invocation) => StepView::Run(invocation@),
            Step::Spawn(invocation) => StepView::Spawn(invocation@),
            Step::Offer(question, invocation) => StepView::Offer(question@, invocation@),
        }
    }
}

impl DeepView for Step {
    type V = StepView;

    open spec fn deep_view(&self) -> StepView {
        self@
    }
}

impl Clone for Step {
    fn clone(&self) -> (copy: Self)
        ensures
            copy@ == self@,
    {
        match self {
            Step::CreateRoot => Step::CreateRoot,
            Step::CreateFolder(folder) => Step::CreateFolder(folder.clone()),
            Step::EnterRoot => Step::EnterRoot,
            Step::CopyTemplates(phase) => Step::CopyTemplates(*phase),
            Step::Run(invocation) => Step::Run(invocation.clone()),
            Step::Spawn(invocation) => Step::Spawn(invocation.clone()),
            Step::Offer(question, invocation) => Step::Offer(question.clone(), invocation.clone()),
        }
    }
}

/// What happened when a step was performed.
#[derive(Debug, Clone, Copy, PartialEq, Eq, Structural)]
pub enum Outcome {
    /// The step did its work; a command ended with success.
    Completed,
    /// The command ran and reported failure.
    NonZeroExit,
    /// The command could not be started or waited for.
    LaunchFailed,
    /// A directory could not be made or entered, or a copy failed.
    FilesystemFailed,
    /// The operator answered no.
    Declined,
    /// The operator could not be asked.
    PromptFailed,
}

/// Why a build stopped.
#[derive(Debug, Clone, Copy, PartialEq, Eq, Structural)]
pub enum Failure {
    Launch,
    Filesystem,
    Prompt,
}

/// The step at which a build stopped, counted from 0, and why.
#[derive(Debug, Clone, Copy, PartialEq, Eq, Structural)]
pub struct BuildError {
    pub step: usize,
    pub failure: Failure,
}

/// Where a build stands.
#[derive(Debug, Clone, Copy, PartialEq, Eq, Structural)]
pub enum Status {
    /// A step is waiting to be performed.
    Running,
    /// Every step was performed.
    Finished,
    /// The build stopped early.
    Aborted(BuildError),
}

/// Whether `outcome` of `step` ends the build, and why.
///
/// A command that cannot be started ends it; a command that reports failure
/// does not. A failed copy before installation is put up with; every other
/// filesystem failure ends the build.
pub open spec fn fatal_spec(step: StepView, outcome: Outcome) -> Option<Failure> {
    match outcome {
        Outcome::Completed => None,
        Outcome::NonZeroExit => None,
        Outcome::Declined => None,
        Outcome::LaunchFailed => Some(Failure::Launch),
        Outcome::PromptFailed => Some(Failure::Prompt),
        Outcome::FilesystemFailed => if step == StepView::CopyTemplates(
            TemplatePhase::BeforeInstall,
        ) {
            None
        } else {
            Some(Failure::Filesystem)
        },
    }
}

/// Whether `outcome` of `step` ends the build, and why.
pub fn fatal(step: &Step, outcome: Outcome) -> (failure: Option<Failure>)
    ensures
        failure == fatal_spec(step@, outcome),
{
    match outcome {
        Outcome::Completed => None,
        Outcome::NonZeroExit => None,
        Outcome::Declined => None,
        Outcome::LaunchFailed => Some(Failure::Launch),
        Outcome::PromptFailed => Some(Failure::Prompt),
        Outcome::FilesystemFailed => match step {
            Step::CopyTemplates(TemplatePhase::BeforeInstall) => None,
            _ => Some(Failure::Filesystem),
        },
    }
}

/// The state of a build: its steps, how many of them were attempted, and the
/// failure that stopped it, if one did.
pub struct PipelineView {
    pub steps: Seq<StepView>,
    pub attempted: int,
    pub failure: Option<BuildError>,
}

impl PipelineView {
    /// The attempted steps are steps of the build, and a failure stands at
    /// the step that was attempted last.
    pub open spec fn wf(self) -> bool {
        &&& 0 <= self.attempted <= self.steps.len()
        &&& self.failure matches Some(error) ==> error.step + 1 == self.attempted
    }

    /// The step to perform next: none once the build has stopped or is done.
    pub open spec fn next_spec(self) -> Option<StepView> {
        if self.failure is None && 0 <= self.attempted < self.steps.len() {
            Some(self.steps[self.attempted])
        } else {
            None
        }
    }

    /// The state after the next step was attempted with `outcome`. A build
    /// that has stopped or is done stays as it is.
    pub open spec fn record_spec(self, outcome: Outcome) -> PipelineView {
        match self.next_spec() {
            None => self,
            Some(step) => PipelineView {
                steps: self.steps,
                attempted: self.attempted + 1,
                failure: match fatal_spec(step, outcome) {
                    Some(failure) => Some(BuildError { step: self.attempted as usize, failure }),
                    None => None,
                },
            },
        }
    }

    /// The state after the outcomes were recorded one after another.
    pub open spec fn run_spec(self, outcomes: Seq<Outcome>) -> PipelineView
        decreases outcomes.len(),
    {
        if outcomes.len() == 0 {
            self
        } else {
            self.run_spec(outcomes.drop_last()).record_spec(outcomes.last())
        }
    }

    /// Where the build stands.
    pub open spec fn status_spec(self) -> Status {
        match self.failure {
            Some(error) => Status::Aborted(error),
            None => if self.attempted < self.steps.len() {
                Status::Running
            } else {
                Status::Finished
            },
        }
    }
}

/// A build in progress.
#[derive(Debug)]
pub struct Pipeline {
    steps: Vec<Step>,
    attempted: usize,
    failure: Option<BuildError>,
}

impl View for Pipeline {
    type V = PipelineView;

    closed spec fn view(&self) -> PipelineView {
        PipelineView {
            steps: self.steps.deep_view(),
            attempted: self.attempted as int,
            failure: self.failure,
        }
    }
}

impl Pipeline {
    #[verifier::type_invariant]
    spec fn inv(self) -> bool {
        &&& self.attempted <= self.steps.len()
        &&& self.failure matches Some(error) ==> error.step + 1 == self.attempted
    }

    /// A build that has `steps` before it.
    pub fn new(steps: Vec<Step>) -> (pipeline: Self)
        ensures
            pipeline@ == (PipelineView { steps: steps.deep_view(), attempted: 0, failure: None }),
    {
        Pipeline { steps, attempted: 0, failure: None }
    }

    /// All steps of the build, in order.
    pub fn steps(&self) -> (steps: &Vec<Step>)
        ensures
            steps.deep_view() == self@.steps,
            self@.wf(),
    {
        proof {
            use_type_invariant(self);
        }
        &self.steps
    }

    /// How many steps were attempted.
    pub fn attempted(&self) -> (count: usize)
        ensures
            count == self@.attempted,
            self@.wf(),
    {
        proof {
            use_type_invariant(self);
        }
        self.attempted
    }

    /// The step at which the build stopped, if it stopped early.
    pub fn failed_step(&self) -> (step: Option<&Step>)
        ensures
            self@.wf(),
            match self@.failure {
                Some(error) => step.deep_view() == Some(self@.steps[error.step as int]),
                None => step is None,
            },
    {
        proof {
            use_type_invariant(self);
        }
        match self.failure {
            Some(error) => {
                proof {
                    assert(self.steps.deep_view()[error.step as int] == self.steps[error.step as int]@);
                }
                Some(&self.steps[error.step])
            },
            None => None,
        }
    }

    /// The step to perform next: none once the build has stopped or is done.
    pub fn next(&self) -> (step: Option<&Step>)
        ensures
            step.deep_view() == self@.next_spec(),
            self@.wf(),
    {
        proof {
            use_type_invariant(self);
        }
        if self.failure.is_none() && self.attempted < self.steps.len() {
            proof {
                assert(self.steps.deep_view()[self.attempted as int] == self.steps[self.attempted as int]@);
            }
            Some(&self.steps[self.attempted])
        } else {
            None
        }
    }

    /// Takes note of what happened when the next step was performed.
    pub fn record(&mut self, outcome: Outcome)
        ensures
            final(self)@ == old(self)@.record_spec(outcome),
            final(self)@.wf(),
    {
        proof {
            use_type_invariant(&*self);
        }
        if self.failure.is_none() && self.attempted < self.steps.len() {
            proof {
                assert(self.steps.deep_view()[self.attempted as int] == self.steps[self.attempted as int]@);
            }
            let step = self.attempted;
            let failure = fatal(&self.steps[step], outcome);
            self.attempted = step + 1;
            match failure {
                Some(failure) => {
                    self.failure = Some(BuildError { step, failure });
                },
                None => {},
            }
        }
    }

    /// Where the build stands.
    pub fn status(&self) -> (status: Status)
        ensures
            status == self@.status_spec(),
            self@.wf(),
    {
        proof {
            use_type_invariant(self);
        }
        match self.failure {
            Some(error) => Status::Aborted(error),
            None => {
                if self.attempted < self.steps.len() {
                    Status::Running
                } else {
                    Status::Finished
                }
            },
        }
    }
}

/// Recording an outcome keeps a build well-formed.
pub proof fn lemma_record_keeps_wf(state: PipelineView, outcome: Outcome)
    requires
        state.wf(),
        state.steps.len() <= usize::MAX,
    ensures
        state.record_spec(outcome).wf(),
{
}

/// Nothing changes a build that has stopped or is done.
pub proof fn lemma_stopped_build_stays(state: PipelineView, later: Seq<Outcome>)
    requires
        state.next_spec() is None,
    ensures
        state.run_spec(later) == state,
    decreases later.len(),
{
    if later.len() > 0 {
        lemma_stopped_build_stays(state, later.drop_last());
    }
}

/// A command that cannot be started halts the build: the failure is recorded
/// at that step, no step is handed out afterwards, and whatever is reported
/// later, no further step is attempted.
pub proof fn lemma_launch_failure_halts(state: PipelineView, later: Seq<Outcome>)
    requires
        state.next_spec() is Some,
    ensures
        ({
            let halted = state.record_spec(Outcome::LaunchFailed);
            &&& halted.failure == Some(
                BuildError { step: state.attempted as usize, failure: Failure::Launch },
            )
            &&& halted.attempted == state.attempted + 1
            &&& halted.next_spec() is None
            &&& halted.run_spec(later) == halted
            &&& halted.run_spec(later).status_spec() is Aborted
        }),
{
    lemma_stopped_build_stays(state.record_spec(Outcome::LaunchFailed), later);
}

/// A command that runs and reports failure does not stop the build: the build
/// goes on exactly as after a success.
pub proof fn lemma_exit_status_is_ignored(state: PipelineView)
    ensures
        state.record_spec(Outcome::NonZeroExit) == state.record_spec(Outcome::Completed),
        state.record_spec(Outcome::NonZeroExit).failure == state.failure,
{
}

/// Of the filesystem steps, only the copy before installation may fail
/// without stopping the build.
pub proof fn lemma_copy_policy(step: StepView)
    ensures
        fatal_spec(StepView::CopyTemplates(TemplatePhase::BeforeInstall), Outcome::FilesystemFailed)
            is None,
        fatal_spec(StepView::CopyTemplates(TemplatePhase::AfterInstall), Outcome::FilesystemFailed)
            == Some(Failure::Filesystem),
        step != StepView::CopyTemplates(TemplatePhase::BeforeInstall) ==> fatal_spec(
            step,
            Outcome::FilesystemFailed,
        ) == Some(Failure::Filesystem),
{
}

/// As long as no outcome is fatal, the steps are handed out one by one in
/// their order: after `outcomes.len()` reports, that many steps were
/// attempted and the build has not stopped.
pub proof fn lemma_steps_run_in_order(state: PipelineView, outcomes: Seq<Outcome>)
    requires
        state.wf(),
        state.failure is None,
        state.attempted + outcomes.len() <= state.steps.len(),
        forall|k: int|
            0 <= k < outcomes.len() ==> fatal_spec(
                #[trigger] state.steps[state.attempted + k],
                outcomes[k],
            ) is None,
    ensures
        state.run_spec(outcomes).steps == state.steps,
        state.run_spec(outcomes).attempted == state.attempted + outcomes.len(),
        state.run_spec(outcomes).failure is None,
    decreases outcomes.len(),
{
    if outcomes.len() > 0 {
        let before = outcomes.drop_last();
        assert forall|k: int| 0 <= k < before.len() implies fatal_spec(
            #[trigger] state.steps[state.attempted + k],
            before[k],
        ) is None by {
            assert(before[k] == outcomes[k]);
        }
        lemma_steps_run_in_order(state, before);
        let last = outcomes.len() - 1;
        assert(fatal_spec(state.steps[state.attempted + last], outcomes[last]) is None);
    }
}

} // verus!
