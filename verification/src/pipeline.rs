//! The per-collection synchronization pipeline: a fixed four-step sequence
//! run inside a directory-scoped execution context.
//!
//! The machine emits one action at a time; the outer driver performs it and
//! reports the outcome. Whatever the outcomes, a change of the working
//! directory is paired with exactly one restoration before the run completes.
use vstd::prelude::*;
use crate::StepOutcome;

verus! {

/// The four remote-side steps of one pipeline run, in their fixed order.
#[derive(Clone, Copy, PartialEq, Eq, Structural, Debug)]
pub enum SyncStep {
    Activate,
    Refresh,
    Pull,
    Deactivate,
}

/// Where a pipeline run stands. Each phase before `Finished` has exactly one
/// pending action, named by `action_for`.
#[derive(Clone, Copy, PartialEq, Eq, Structural, Debug)]
pub enum PipelinePhase {
    /// Waiting for the switch into the collection's target directory.
    EnteringDirectory,
    /// Waiting for the remote-side activation of the collection context.
    Activating,
    /// Waiting for the collection's non-pruning metadata refresh.
    Refreshing,
    /// Waiting for the pull of outstanding content.
    Pulling,
    /// Waiting for the remote-side deactivation of the collection context.
    Deactivating,
    /// Waiting for the best-effort restoration of the original directory.
    RestoringDirectory,
    /// The run is complete; the result is determined.
    Finished,
}

/// The determined result of one pipeline run.
#[derive(Debug)]
pub enum PipelineResult {
    AllStepsSucceeded,
    /// The switch into the target directory failed; no step ran and the
    /// working directory was never changed.
    DirectoryChangeFailed { detail: String },
    /// The named step failed first; the later steps were not attempted.
    StepFailed { step: SyncStep, detail: String },
}

/// One action the outer driver must perform for the pipeline.
#[derive(Debug)]
pub enum PipelineAction {
    /// Switch the process working directory to the collection's target
    /// directory, recording the directory it leaves.
    ChangeDirectory { directory: String },
    /// Activate the remote-side collection context.
    ActivateCollection { id: i64 },
    /// Refresh this collection's metadata without pruning.
    RefreshCollectionMetadata,
    /// Pull outstanding content for the activated collection.
    PullContent,
    /// Deactivate the remote-side collection context.
    DeactivateCollection { id: i64 },
    /// Restore the recorded original directory. Best effort: a failure here is
    /// logged as a warning and never escalated.
    RestoreDirectory,
}

/// The phase transition: a failed step routes the run into restoration (or
/// straight to completion when the directory was never changed), deactivation
/// happens only after the first three steps succeeded, and restoration always
/// completes the run.
pub open spec fn pipeline_next_phase(phase: PipelinePhase, ok: bool) -> PipelinePhase {
    match phase {
        PipelinePhase::EnteringDirectory => if ok {
            PipelinePhase::Activating
        } else {
            PipelinePhase::Finished
        },
        PipelinePhase::Activating => if ok {
            PipelinePhase::Refreshing
        } else {
            PipelinePhase::RestoringDirectory
        },
        PipelinePhase::Refreshing => if ok {
            PipelinePhase::Pulling
        } else {
            PipelinePhase::RestoringDirectory
        },
        PipelinePhase::Pulling => if ok {
            PipelinePhase::Deactivating
        } else {
            PipelinePhase::RestoringDirectory
        },
        PipelinePhase::Deactivating => PipelinePhase::RestoringDirectory,
        PipelinePhase::RestoringDirectory => PipelinePhase::Finished,
        PipelinePhase::Finished => PipelinePhase::Finished,
    }
}

/// How the determined result evolves: it is set by the first failure (or by
/// full success at deactivation) and the restoration outcome never alters it.
pub open spec fn result_update(
    phase: PipelinePhase,
    result: Option<PipelineResult>,
    outcome: StepOutcome,
) -> Option<PipelineResult> {
    match phase {
        PipelinePhase::EnteringDirectory => match outcome {
            StepOutcome::Success => None,
            StepOutcome::Failure { detail } => Some(PipelineResult::DirectoryChangeFailed { detail }),
        },
        PipelinePhase::Activating => match outcome {
            StepOutcome::Success => None,
            StepOutcome::Failure { detail } => Some(
                PipelineResult::StepFailed { step: SyncStep::Activate, detail },
            ),
        },
        PipelinePhase::Refreshing => match outcome {
            StepOutcome::Success => None,
            StepOutcome::Failure { detail } => Some(
                PipelineResult::StepFailed { step: SyncStep::Refresh, detail },
            ),
        },
        PipelinePhase::Pulling => match outcome {
            StepOutcome::Success => None,
            StepOutcome::Failure { detail } => Some(
                PipelineResult::StepFailed { step: SyncStep::Pull, detail },
            ),
        },
        PipelinePhase::Deactivating => match outcome {
            StepOutcome::Success => Some(PipelineResult::AllStepsSucceeded),
            StepOutcome::Failure { detail } => Some(
                PipelineResult::StepFailed { step: SyncStep::Deactivate, detail },
            ),
        },
        PipelinePhase::RestoringDirectory => result,
        PipelinePhase::Finished => result,
    }
}

/// The pending action of a phase, for a given collection and directory.
pub open spec fn action_for(phase: PipelinePhase, id: i64, directory: String) -> Option<
    PipelineAction,
> {
    match phase {
        PipelinePhase::EnteringDirectory => Some(PipelineAction::ChangeDirectory { directory }),
        PipelinePhase::Activating => Some(PipelineAction::ActivateCollection { id }),
        PipelinePhase::Refreshing => Some(PipelineAction::RefreshCollectionMetadata),
        PipelinePhase::Pulling => Some(PipelineAction::PullContent),
        PipelinePhase::Deactivating => Some(PipelineAction::DeactivateCollection { id }),
        PipelinePhase::RestoringDirectory => Some(PipelineAction::RestoreDirectory),
        PipelinePhase::Finished => None,
    }
}

/// One pipeline run for one collection, driven from the outside one outcome
/// at a time.
#[derive(Debug)]
pub struct CollectionPipeline {
    pub id: i64,
    pub directory: String,
    pub phase: PipelinePhase,
    pub result: Option<PipelineResult>,
}

impl CollectionPipeline {
    /// The result is determined exactly from restoration onwards.
    pub open spec fn wf(self) -> bool {
        self.result is Some <==> (self.phase is RestoringDirectory || self.phase is Finished)
    }

    /// Starts a pipeline run: the first action is the switch into the
    /// collection's target directory.
    pub fn begin(id: i64, directory: String) -> (r: (CollectionPipeline, PipelineAction))
        ensures
            r.0.wf(),
            r.0.id == id,
            r.0.directory == directory,
            r.0.phase is EnteringDirectory,
            r.0.result is None,
            (r.1 matches PipelineAction::ChangeDirectory { directory: d } && d@ == directory@),
    {
        let action_dir = directory.clone();
        let pipeline = CollectionPipeline {
            id,
            directory,
            phase: PipelinePhase::EnteringDirectory,
            result: None,
        };
        (pipeline, PipelineAction::ChangeDirectory { directory: action_dir })
    }

    /// Consumes the outcome of the pending action and returns the next one;
    /// `None` means the run is complete and `result` is determined.
    pub fn step(&mut self, outcome: StepOutcome) -> (action: Option<PipelineAction>)
        requires
            old(self).wf(),
            !(old(self).phase is Finished),
        ensures
            final(self).wf(),
            final(self).id == old(self).id,
            final(self).directory == old(self).directory,
            final(self).phase == pipeline_next_phase(old(self).phase, outcome is Success),
            final(self).result == result_update(old(self).phase, old(self).result, outcome),
            action == action_for(final(self).phase, final(self).id, final(self).directory),
    {
        match self.phase {
            PipelinePhase::EnteringDirectory => match outcome {
                StepOutcome::Success => {
                    self.phase = PipelinePhase::Activating;
                },
                StepOutcome::Failure { detail } => {
                    self.phase = PipelinePhase::Finished;
                    self.result = Some(PipelineResult::DirectoryChangeFailed { detail });
                },
            },
            PipelinePhase::Activating => match outcome {
                StepOutcome::Success => {
                    self.phase = PipelinePhase::Refreshing;
                },
                StepOutcome::Failure { detail } => {
                    self.phase = PipelinePhase::RestoringDirectory;
                    self.result = Some(
                        PipelineResult::StepFailed { step: SyncStep::Activate, detail },
                    );
                },
            },
            PipelinePhase::Refreshing => match outcome {
                StepOutcome::Success => {
                    self.phase = PipelinePhase::Pulling;
                },
                StepOutcome::Failure { detail } => {
                    self.phase = PipelinePhase::RestoringDirectory;
                    self.result = Some(
                        PipelineResult::StepFailed { step: SyncStep::Refresh, detail },
                    );
                },
            },
            PipelinePhase::Pulling => match outcome {
                StepOutcome::Success => {
                    self.phase = PipelinePhase::Deactivating;
                },
                StepOutcome::Failure { detail } => {
                    self.phase = PipelinePhase::RestoringDirectory;
                    self.result = Some(PipelineResult::StepFailed { step: SyncStep::Pull, detail });
                },
            },
            PipelinePhase::Deactivating => match outcome {
                StepOutcome::Success => {
                    self.phase = PipelinePhase::RestoringDirectory;
                    self.result = Some(PipelineResult::AllStepsSucceeded);
                },
                StepOutcome::Failure { detail } => {
                    self.phase = PipelinePhase::RestoringDirectory;
                    self.result = Some(
                        PipelineResult::StepFailed { step: SyncStep::Deactivate, detail },
                    );
                },
            },
            PipelinePhase::RestoringDirectory => {
                self.phase = PipelinePhase::Finished;
            },
            PipelinePhase::Finished => {
            },
        }
        self.pending_action()
    }

    /// The action currently waited on, if the run is not complete.
    pub fn pending_action(&self) -> (action: Option<PipelineAction>)
        ensures
            action == action_for(self.phase, self.id, self.directory),
    {
        match self.phase {
            PipelinePhase::EnteringDirectory => Some(
                PipelineAction::ChangeDirectory { directory: self.directory.clone() },
            ),
            PipelinePhase::Activating => Some(PipelineAction::ActivateCollection { id: self.id }),
            PipelinePhase::Refreshing => Some(PipelineAction::RefreshCollectionMetadata),
            PipelinePhase::Pulling => Some(PipelineAction::PullContent),
            PipelinePhase::Deactivating => Some(
                PipelineAction::DeactivateCollection { id: self.id },
            ),
            PipelinePhase::RestoringDirectory => Some(PipelineAction::RestoreDirectory),
            PipelinePhase::Finished => None,
        }
    }
}

/// The phase and determined result after a whole sequence of step outcomes.
pub open spec fn run_machine(
    phase: PipelinePhase,
    result: Option<PipelineResult>,
    outcomes: Seq<StepOutcome>,
) -> (PipelinePhase, Option<PipelineResult>)
    decreases outcomes.len(),
{
    if outcomes.len() == 0 {
        (phase, result)
    } else {
        run_machine(
            pipeline_next_phase(phase, outcomes[0] is Success),
            result_update(phase, result, outcomes[0]),
            outcomes.drop_first(),
        )
    }
}

/// From restoration onwards the result is settled: no outcome changes it.
proof fn lemma_settled_result_is_kept(
    phase: PipelinePhase,
    result: Option<PipelineResult>,
    outcomes: Seq<StepOutcome>,
)
    requires
        phase is RestoringDirectory || phase is Finished,
    ensures
        run_machine(phase, result, outcomes).1 == result,
    decreases outcomes.len(),
{
    if outcomes.len() > 0 {
        lemma_settled_result_is_kept(
            pipeline_next_phase(phase, outcomes[0] is Success),
            result_update(phase, result, outcomes[0]),
            outcomes.drop_first(),
        );
    }
}

/// How many further successful outcomes a phase still needs before the run's
/// result is settled as a full success.
pub open spec fn successes_still_needed(phase: PipelinePhase) -> int {
    match phase {
        PipelinePhase::EnteringDirectory => 5,
        PipelinePhase::Activating => 4,
        PipelinePhase::Refreshing => 3,
        PipelinePhase::Pulling => 2,
        PipelinePhase::Deactivating => 1,
        PipelinePhase::RestoringDirectory => 0,
        PipelinePhase::Finished => 0,
    }
}

proof fn lemma_success_characterized_from(phase: PipelinePhase, outcomes: Seq<StepOutcome>)
    requires
        !(phase is RestoringDirectory),
        !(phase is Finished),
    ensures
        run_machine(phase, None, outcomes).1 == Some(PipelineResult::AllStepsSucceeded) <==> (
        outcomes.len() >= successes_still_needed(phase) && (forall|i: int|
            0 <= i < successes_still_needed(phase) ==> outcomes[i] is Success)),
    decreases outcomes.len(),
{
    if outcomes.len() == 0 {
    } else {
        let first = outcomes[0];
        let rest = outcomes.drop_first();
        assert forall|i: int| 0 <= i < rest.len() implies rest[i] == outcomes[i + 1] by {}
        let next = pipeline_next_phase(phase, first is Success);
        let updated = result_update(phase, None, first);
        if next is RestoringDirectory || next is Finished {
            lemma_settled_result_is_kept(next, updated, rest);
            if updated == Some(PipelineResult::AllStepsSucceeded) {
                assert(phase is Deactivating && first is Success);
                assert forall|i: int|
                    0 <= i < successes_still_needed(phase) implies outcomes[i] is Success by {
                    assert(outcomes[0] == first);
                }
            }
        } else {
            lemma_success_characterized_from(next, rest);
            // a failed outcome always settles the run, so this step succeeded
            assert(first is Success);
            assert(successes_still_needed(next) == successes_still_needed(phase) - 1);
            if run_machine(phase, None, outcomes).1 == Some(PipelineResult::AllStepsSucceeded) {
                assert forall|i: int|
                    0 <= i < successes_still_needed(phase) implies outcomes[i] is Success by {
                    if i > 0 {
                        assert(outcomes[i] == rest[i - 1]);
                    } else {
                        assert(outcomes[0] == first);
                    }
                }
            }
        }
    }
}

/// The result of a run is a full success exactly when the directory change
/// and all four steps succeeded: five successful outcomes, in order, with no
/// failure among them.
pub proof fn lemma_success_needs_every_step(outcomes: Seq<StepOutcome>)
    ensures
        run_machine(PipelinePhase::EnteringDirectory, None, outcomes).1 == Some(
            PipelineResult::AllStepsSucceeded,
        ) <==> (outcomes.len() >= 5 && (forall|i: int| 0 <= i < 5 ==> outcomes[i] is Success)),
{
    lemma_success_characterized_from(PipelinePhase::EnteringDirectory, outcomes);
}

/// Abstract model of the ambient working directory during one run: the
/// directory the process was in when the run began, or the collection's
/// target directory.
#[derive(Debug)]
pub enum AmbientDirectory {
    Original,
    Target,
}

/// Whether, in a phase, the working directory has been switched and not yet
/// restored.
pub open spec fn directory_switched(phase: PipelinePhase) -> bool {
    match phase {
        PipelinePhase::EnteringDirectory => false,
        PipelinePhase::Finished => false,
        _ => true,
    }
}

/// One step of the directory model: a successful change switches to the
/// target; the restoration phase switches back. Restoration is modeled as
/// taking effect - a failed restoration is only logged, never escalated, and
/// lies outside this model.
pub open spec fn directory_after_step(
    phase: PipelinePhase,
    ok: bool,
    dir: AmbientDirectory,
) -> AmbientDirectory {
    match phase {
        PipelinePhase::EnteringDirectory => if ok {
            AmbientDirectory::Target
        } else {
            dir
        },
        PipelinePhase::RestoringDirectory => AmbientDirectory::Original,
        _ => dir,
    }
}

/// The phase and modeled directory after a whole sequence of step outcomes.
pub open spec fn run_directory(
    phase: PipelinePhase,
    dir: AmbientDirectory,
    outcomes: Seq<bool>,
) -> (PipelinePhase, AmbientDirectory)
    decreases outcomes.len(),
{
    if outcomes.len() == 0 {
        (phase, dir)
    } else {
        run_directory(
            pipeline_next_phase(phase, outcomes[0]),
            directory_after_step(phase, outcomes[0], dir),
            outcomes.drop_first(),
        )
    }
}

/// The directory is in the target exactly while the run holds the switch.
pub open spec fn directory_inv(phase: PipelinePhase, dir: AmbientDirectory) -> bool {
    directory_switched(phase) <==> dir is Target
}

proof fn lemma_run_preserves_directory_inv(
    phase: PipelinePhase,
    dir: AmbientDirectory,
    outcomes: Seq<bool>,
)
    requires
        directory_inv(phase, dir),
    ensures
        directory_inv(
            run_directory(phase, dir, outcomes).0,
            run_directory(phase, dir, outcomes).1,
        ),
    decreases outcomes.len(),
{
    if outcomes.len() > 0 {
        lemma_run_preserves_directory_inv(
            pipeline_next_phase(phase, outcomes[0]),
            directory_after_step(phase, outcomes[0], dir),
            outcomes.drop_first(),
        );
    }
}

/// Deactivation is attempted only after everything before it succeeded: the
/// only way into the deactivation phase is a successful pull, which itself is
/// reachable only through successful change, activation and refresh. A run
/// that fails earlier leaves the collection activated, an accepted and logged
/// inconsistency for a later round to reconcile.
pub proof fn lemma_deactivation_only_after_pull_success(phase: PipelinePhase, ok: bool)
    ensures
        pipeline_next_phase(phase, ok) is Deactivating <==> (phase is Pulling && ok),
{
}

/// For every sequence of step outcomes - including a failure at any of the
/// four steps - a pipeline run that reaches completion leaves the working
/// directory where it started. In particular, when the switch into the target
/// directory fails, no change ever happened and none is undone.
pub proof fn lemma_pipeline_restores_directory(outcomes: Seq<bool>)
    ensures
        ({
            let (phase, dir) = run_directory(
                PipelinePhase::EnteringDirectory,
                AmbientDirectory::Original,
                outcomes,
            );
            phase is Finished ==> dir is Original
        }),
{
    lemma_run_preserves_directory_inv(
        PipelinePhase::EnteringDirectory,
        AmbientDirectory::Original,
        outcomes,
    );
}

} // verus!
