use bili_sync_fav::pipeline::{
    CollectionPipeline, PipelineAction, PipelinePhase, PipelineResult, SyncStep,
};
use bili_sync_fav::StepOutcome;

fn ok() -> StepOutcome {
    StepOutcome::Success
}

fn fail(detail: &str) -> StepOutcome {
    StepOutcome::Failure { detail: detail.to_string() }
}

#[test]
fn full_success_runs_all_four_steps_and_restores() {
    let (mut p, first) = CollectionPipeline::begin(100, "./a".to_string());
    match first {
        PipelineAction::ChangeDirectory { directory } => assert_eq!(directory, "./a"),
        _ => panic!("expected the directory change first"),
    }
    assert!(matches!(
        p.step(ok()),
        Some(PipelineAction::ActivateCollection { id: 100 })
    ));
    assert!(matches!(p.step(ok()), Some(PipelineAction::RefreshCollectionMetadata)));
    assert!(matches!(p.step(ok()), Some(PipelineAction::PullContent)));
    assert!(matches!(
        p.step(ok()),
        Some(PipelineAction::DeactivateCollection { id: 100 })
    ));
    // deactivation done: the directory is restored before the run completes
    assert!(matches!(p.step(ok()), Some(PipelineAction::RestoreDirectory)));
    assert!(p.step(ok()).is_none());
    assert_eq!(p.phase, PipelinePhase::Finished);
    assert!(matches!(p.result, Some(PipelineResult::AllStepsSucceeded)));
}

#[test]
fn failed_directory_change_never_restores() {
    // the target directory does not exist: acquisition fails cleanly, no
    // change occurred, so nothing is undone
    let (mut p, _) = CollectionPipeline::begin(7, "./missing".to_string());
    let next = p.step(fail("no such directory"));
    assert!(next.is_none());
    assert_eq!(p.phase, PipelinePhase::Finished);
    match p.result {
        Some(PipelineResult::DirectoryChangeFailed { detail }) => {
            assert_eq!(detail, "no such directory")
        },
        _ => panic!("expected a directory-change failure"),
    }
}

#[test]
fn activation_failure_skips_later_steps_but_restores() {
    let (mut p, _) = CollectionPipeline::begin(100, "./a".to_string());
    assert!(matches!(
        p.step(ok()),
        Some(PipelineAction::ActivateCollection { id: 100 })
    ));
    // the activation call fails: no refresh, no pull, no deactivation
    assert!(matches!(
        p.step(fail("activation refused")),
        Some(PipelineAction::RestoreDirectory)
    ));
    assert!(p.step(ok()).is_none());
    match &p.result {
        Some(PipelineResult::StepFailed { step, detail }) => {
            assert_eq!(*step, SyncStep::Activate);
            assert_eq!(detail, "activation refused");
        },
        _ => panic!("expected a step failure"),
    }
}

#[test]
fn pull_failure_skips_deactivation_but_restores() {
    let (mut p, _) = CollectionPipeline::begin(3, "./c".to_string());
    p.step(ok());
    p.step(ok());
    assert!(matches!(p.step(ok()), Some(PipelineAction::PullContent)));
    assert!(matches!(
        p.step(fail("network down")),
        Some(PipelineAction::RestoreDirectory)
    ));
    assert!(p.step(ok()).is_none());
    assert!(matches!(
        p.result,
        Some(PipelineResult::StepFailed { step: SyncStep::Pull, .. })
    ));
}

#[test]
fn failed_restoration_does_not_change_the_result() {
    let (mut p, _) = CollectionPipeline::begin(4, "./d".to_string());
    for _ in 0..5 {
        p.step(ok());
    }
    // the best-effort restoration fails: only logged, result unchanged
    assert!(p.step(fail("cannot change back")).is_none());
    assert_eq!(p.phase, PipelinePhase::Finished);
    assert!(matches!(p.result, Some(PipelineResult::AllStepsSucceeded)));
}
