//! The top-level scheduling state machine.
//!
//! One global refresh after a validated startup, then an unbounded loop of
//! rounds: re-validate the session, run every configured collection through
//! its pipeline with per-collection failure isolation, sleep for the
//! configured interval. A session failure anywhere is escalated into a
//! critical failure and terminates the machine; a per-collection failure
//! never does.
use vstd::prelude::*;
use vstd::string::*;
use crate::StepOutcome;
use crate::config::SyncConfiguration;
use crate::failure::{CriticalFailure, critical_failure_now, failure_body};

verus! {

/// Where the scheduler stands. Each non-terminal state has exactly one
/// pending action, described by `scheduler_action_matches`.
#[derive(Clone, Copy, PartialEq, Eq, Structural, Debug)]
pub enum SchedulerState {
    /// Waiting for the one-shot session establishment at startup.
    StartupValidation,
    /// Waiting for the one-time global metadata refresh before the first round.
    GlobalRefresh,
    /// Waiting for the session liveness probe that opens every round.
    RoundValidation,
    /// Waiting for the pipeline run of the collection at `next_index`.
    ProcessingCollections { next_index: usize },
    /// Waiting for the between-rounds sleep.
    Sleeping,
    /// Terminal: a critical failure or a startup fault ended the loop.
    Terminated,
}

/// One action the outer driver must perform for the scheduler.
#[derive(Debug)]
pub enum SchedulerAction {
    /// Establish a session with the stored credential (one-shot login).
    EstablishSession,
    /// Perform the one-time global non-pruning metadata refresh.
    RefreshAllMetadata,
    /// Probe whether the stored session is still accepted.
    CheckSession,
    /// Run the four-step pipeline for this collection; its failure is logged
    /// and isolated, never fatal.
    SyncCollection { id: i64, directory: String },
    /// Sleep for the configured number of seconds between rounds.
    SleepFor { seconds: u64 },
    /// Log the failure, attempt one best-effort notification, and exit with a
    /// nonzero code.
    EscalateAndStop { failure: CriticalFailure },
    /// Exit with a nonzero code without notifying: the baseline refresh
    /// failed before the first round.
    AbortStartup { message: String },
}

/// A state is meaningful for a configuration when its collection index is in
/// range.
pub open spec fn state_wf(state: SchedulerState, config: SyncConfiguration) -> bool {
    state matches SchedulerState::ProcessingCollections { next_index } ==> next_index
        < config.collections@.len()
}

/// The state transition. Session failures at startup or at a round's gate are
/// fatal; a collection outcome - success or failure alike - moves on to the
/// next collection, or to the sleep that ends the round.
pub open spec fn scheduler_next(
    config: SyncConfiguration,
    state: SchedulerState,
    outcome: StepOutcome,
) -> SchedulerState {
    match state {
        SchedulerState::StartupValidation => match outcome {
            StepOutcome::Success => SchedulerState::GlobalRefresh,
            StepOutcome::Failure { .. } => SchedulerState::Terminated,
        },
        SchedulerState::GlobalRefresh => match outcome {
            StepOutcome::Success => SchedulerState::RoundValidation,
            StepOutcome::Failure { .. } => SchedulerState::Terminated,
        },
        SchedulerState::RoundValidation => match outcome {
            StepOutcome::Success => if config.collections@.len() == 0 {
                SchedulerState::Sleeping
            } else {
                SchedulerState::ProcessingCollections { next_index: 0 }
            },
            StepOutcome::Failure { .. } => SchedulerState::Terminated,
        },
        SchedulerState::ProcessingCollections { next_index } => if next_index + 1
            < config.collections@.len() {
            SchedulerState::ProcessingCollections { next_index: (next_index + 1) as usize }
        } else {
            SchedulerState::Sleeping
        },
        SchedulerState::Sleeping => SchedulerState::RoundValidation,
        SchedulerState::Terminated => SchedulerState::Terminated,
    }
}

pub open spec fn startup_failure_subject() -> Seq<char> {
    "session establishment failed"@
}

pub open spec fn startup_failure_context() -> Seq<char> {
    "Initial session establishment failed; check that the configured credential values are correct and not expired."@
}

pub open spec fn expiry_failure_subject() -> Seq<char> {
    "session expired"@
}

pub open spec fn expiry_failure_context() -> Seq<char> {
    "The stored session has expired or failed validation; synchronization has stopped. Renew the credential."@
}

pub open spec fn abort_message(detail: Seq<char>) -> Seq<char> {
    "initial metadata refresh failed: "@ + detail
}

pub open spec fn is_startup_failure(f: CriticalFailure, detail: Seq<char>) -> bool {
    f.subject@ == startup_failure_subject() && f.message@ == failure_body(
        startup_failure_context(),
        detail,
        f.timestamp@,
    )
}

pub open spec fn is_expiry_failure(f: CriticalFailure, detail: Seq<char>) -> bool {
    f.subject@ == expiry_failure_subject() && f.message@ == failure_body(
        expiry_failure_context(),
        detail,
        f.timestamp@,
    )
}

pub open spec fn is_sync_of(action: SchedulerAction, config: SyncConfiguration, i: int) -> bool {
    action matches SchedulerAction::SyncCollection { id, directory } && id
        == config.collections@[i].id && directory@ == config.collections@[i].directory@
}

pub open spec fn is_interval_sleep(action: SchedulerAction, config: SyncConfiguration) -> bool {
    action matches SchedulerAction::SleepFor { seconds } && seconds == config.interval_seconds
}

/// The action emitted with each transition: which call the driver must make
/// next, or how the loop ends.
pub open spec fn scheduler_action_matches(
    config: SyncConfiguration,
    state: SchedulerState,
    outcome: StepOutcome,
    action: SchedulerAction,
) -> bool {
    match state {
        SchedulerState::StartupValidation => match outcome {
            StepOutcome::Success => action is RefreshAllMetadata,
            StepOutcome::Failure { detail } => action
                matches SchedulerAction::EscalateAndStop { failure } && is_startup_failure(
                failure,
                detail@,
            ),
        },
        SchedulerState::GlobalRefresh => match outcome {
            StepOutcome::Success => action is CheckSession,
            StepOutcome::Failure { detail } => action
                matches SchedulerAction::AbortStartup { message } && message@ == abort_message(
                detail@,
            ),
        },
        SchedulerState::RoundValidation => match outcome {
            StepOutcome::Success => if config.collections@.len() == 0 {
                is_interval_sleep(action, config)
            } else {
                is_sync_of(action, config, 0)
            },
            StepOutcome::Failure { detail } => action
                matches SchedulerAction::EscalateAndStop { failure } && is_expiry_failure(
                failure,
                detail@,
            ),
        },
        SchedulerState::ProcessingCollections { next_index } => if next_index + 1
            < config.collections@.len() {
            is_sync_of(action, config, next_index + 1)
        } else {
            is_interval_sleep(action, config)
        },
        SchedulerState::Sleeping => action is CheckSession,
        SchedulerState::Terminated => false,
    }
}

/// The scheduler starts by validating the session once at startup.
pub fn scheduler_init() -> (r: (SchedulerState, SchedulerAction))
    ensures
        r.0 is StartupValidation,
        r.1 is EstablishSession,
{
    (SchedulerState::StartupValidation, SchedulerAction::EstablishSession)
}

/// Consumes the outcome of the pending action and returns the next state and
/// the next action. Entering the sleep always sleeps for exactly the
/// configured interval, however many collections the round processed.
pub fn scheduler_step(
    config: &SyncConfiguration,
    state: SchedulerState,
    outcome: StepOutcome,
) -> (r: (SchedulerState, SchedulerAction))
    requires
        config.wf(),
        state_wf(state, *config),
        !(state is Terminated),
    ensures
        r.0 == scheduler_next(*config, state, outcome),
        state_wf(r.0, *config),
        scheduler_action_matches(*config, state, outcome, r.1),
        r.0 is Sleeping ==> is_interval_sleep(r.1, *config),
{
    match state {
        SchedulerState::StartupValidation => match outcome {
            StepOutcome::Success => (
                SchedulerState::GlobalRefresh,
                SchedulerAction::RefreshAllMetadata,
            ),
            StepOutcome::Failure { detail } => {
                let failure = critical_failure_now(
                    "session establishment failed",
                    "Initial session establishment failed; check that the configured credential values are correct and not expired.",
                    detail.as_str(),
                );
                (SchedulerState::Terminated, SchedulerAction::EscalateAndStop { failure })
            },
        },
        SchedulerState::GlobalRefresh => match outcome {
            StepOutcome::Success => (SchedulerState::RoundValidation, SchedulerAction::CheckSession),
            StepOutcome::Failure { detail } => {
                let mut message = String::from_str("initial metadata refresh failed: ");
                message.append(detail.as_str());
                (SchedulerState::Terminated, SchedulerAction::AbortStartup { message })
            },
        },
        SchedulerState::RoundValidation => match outcome {
            StepOutcome::Success => {
                if config.collections.len() == 0 {
                    (
                        SchedulerState::Sleeping,
                        SchedulerAction::SleepFor { seconds: config.interval_seconds },
                    )
                } else {
                    (
                        SchedulerState::ProcessingCollections { next_index: 0 },
                        SchedulerAction::SyncCollection {
                            id: config.collections[0].id,
                            directory: config.collections[0].directory.clone(),
                        },
                    )
                }
            },
            StepOutcome::Failure { detail } => {
                let failure = critical_failure_now(
                    "session expired",
                    "The stored session has expired or failed validation; synchronization has stopped. Renew the credential.",
                    detail.as_str(),
                );
                (SchedulerState::Terminated, SchedulerAction::EscalateAndStop { failure })
            },
        },
        SchedulerState::ProcessingCollections { next_index } => {
            let len = config.collections.len();
            if next_index + 1 < len {
                let i = next_index + 1;
                (
                    SchedulerState::ProcessingCollections { next_index: i },
                    SchedulerAction::SyncCollection {
                        id: config.collections[i].id,
                        directory: config.collections[i].directory.clone(),
                    },
                )
            } else {
                (
                    SchedulerState::Sleeping,
                    SchedulerAction::SleepFor { seconds: config.interval_seconds },
                )
            }
        },
        SchedulerState::Sleeping => (SchedulerState::RoundValidation, SchedulerAction::CheckSession),
        SchedulerState::Terminated => vstd::pervasive::unreached(),
    }
}

/// The state after a whole sequence of outcomes.
pub open spec fn advance(
    config: SyncConfiguration,
    state: SchedulerState,
    outcomes: Seq<StepOutcome>,
) -> SchedulerState
    decreases outcomes.len(),
{
    if outcomes.len() == 0 {
        state
    } else {
        advance(config, scheduler_next(config, state, outcomes[0]), outcomes.drop_first())
    }
}

/// A session-validity failure - at startup or at a round's gate - always
/// drives the scheduler to its terminal state.
pub proof fn lemma_session_failure_is_fatal(
    config: SyncConfiguration,
    state: SchedulerState,
    detail: String,
)
    requires
        state is StartupValidation || state is RoundValidation,
    ensures
        scheduler_next(config, state, StepOutcome::Failure { detail }) is Terminated,
{
}

/// A per-collection pipeline failure never terminates the scheduler: the
/// round moves on to the next collection, or to its sleep.
pub proof fn lemma_collection_failure_is_isolated(
    config: SyncConfiguration,
    i: usize,
    outcome: StepOutcome,
)
    ensures
        !(scheduler_next(
            config,
            SchedulerState::ProcessingCollections { next_index: i },
            outcome,
        ) is Terminated),
{
}

proof fn lemma_advance_snoc(
    config: SyncConfiguration,
    state: SchedulerState,
    outcomes: Seq<StepOutcome>,
    last: StepOutcome,
)
    ensures
        advance(config, state, outcomes.push(last)) == scheduler_next(
            config,
            advance(config, state, outcomes),
            last,
        ),
    decreases outcomes.len(),
{
    reveal_with_fuel(advance, 3);
    if outcomes.len() == 0 {
        assert(outcomes.push(last)[0] == last);
        assert(outcomes.push(last).drop_first() =~= Seq::<StepOutcome>::empty());
    } else {
        assert(outcomes.push(last)[0] == outcomes[0]);
        assert(outcomes.push(last).drop_first() =~= outcomes.drop_first().push(last));
        lemma_advance_snoc(
            config,
            scheduler_next(config, state, outcomes[0]),
            outcomes.drop_first(),
            last,
        );
    }
}

proof fn lemma_round_position(config: SyncConfiguration, outcomes: Seq<StepOutcome>, j: int)
    requires
        config.collections@.len() <= usize::MAX,
        0 <= j < config.collections@.len(),
        j <= outcomes.len(),
    ensures
        advance(
            config,
            SchedulerState::ProcessingCollections { next_index: 0 },
            outcomes.take(j),
        ) == (SchedulerState::ProcessingCollections { next_index: j as usize }),
    decreases j,
{
    if j > 0 {
        lemma_round_position(config, outcomes, j - 1);
        assert(outcomes.take(j - 1).push(outcomes[j - 1]) =~= outcomes.take(j));
        lemma_advance_snoc(
            config,
            SchedulerState::ProcessingCollections { next_index: 0 },
            outcomes.take(j - 1),
            outcomes[j - 1],
        );
    } else {
        assert(outcomes.take(0) =~= Seq::<StepOutcome>::empty());
    }
}

/// Within one round every configured collection is attempted exactly once,
/// whatever the outcomes: after the first `j` pipeline outcomes the scheduler
/// stands at collection `j`, and after all of them the round ends in its
/// sleep - a failing collection never stops the others.
pub proof fn lemma_round_isolates_failures(config: SyncConfiguration, outcomes: Seq<StepOutcome>)
    requires
        0 < config.collections@.len() <= usize::MAX,
        outcomes.len() == config.collections@.len(),
    ensures
        forall|j: int|
            0 <= j < outcomes.len() ==> advance(
                config,
                SchedulerState::ProcessingCollections { next_index: 0 },
                outcomes.take(j),
            ) == (SchedulerState::ProcessingCollections { next_index: j as usize }),
        advance(
            config,
            SchedulerState::ProcessingCollections { next_index: 0 },
            outcomes,
        ) is Sleeping,
{
    assert forall|j: int| 0 <= j < outcomes.len() implies advance(
        config,
        SchedulerState::ProcessingCollections { next_index: 0 },
        outcomes.take(j),
    ) == (SchedulerState::ProcessingCollections { next_index: j as usize }) by {
        lemma_round_position(config, outcomes, j);
    }
    let n = outcomes.len() as int;
    lemma_round_position(config, outcomes, n - 1);
    lemma_advance_snoc(
        config,
        SchedulerState::ProcessingCollections { next_index: 0 },
        outcomes.take(n - 1),
        outcomes[n - 1],
    );
    assert(outcomes.take(n - 1).push(outcomes[n - 1]) =~= outcomes);
}

} // verus!
