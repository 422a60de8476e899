use bili_sync_fav::config::{validate, Credential, RawConfig, SmtpSettings};
use bili_sync_fav::config::SyncConfiguration;
use bili_sync_fav::scheduler::{
    scheduler_init, scheduler_step, SchedulerAction, SchedulerState,
};
use bili_sync_fav::StepOutcome;

fn ok() -> StepOutcome {
    StepOutcome::Success
}

fn fail(detail: &str) -> StepOutcome {
    StepOutcome::Failure { detail: detail.to_string() }
}

fn config(interval: u64, list: Vec<(&str, &str)>) -> SyncConfiguration {
    validate(RawConfig {
        interval_seconds: interval,
        credential: Credential {
            sessdata: "sd".to_string(),
            bili_jct: "jct".to_string(),
            buvid3: "bv".to_string(),
            dedeuserid: "uid".to_string(),
            ac_time_value: "atv".to_string(),
        },
        smtp: SmtpSettings {
            url: "smtps://smtp.example.com:465".to_string(),
            sender_email: "sender@example.com".to_string(),
            sender_password: Some("SECRET-REDACTED".to_string()),
            recipient_email: "recipient@example.com".to_string(),
        },
        favorite_list: list
            .into_iter()
            .map(|(k, v)| (k.to_string(), v.to_string()))
            .collect(),
    })
    .unwrap()
}

#[test]
fn startup_leads_to_refresh_then_round() {
    let cfg = config(60, vec![("100", "./a")]);
    let (state, action) = scheduler_init();
    assert_eq!(state, SchedulerState::StartupValidation);
    assert!(matches!(action, SchedulerAction::EstablishSession));
    let (state, action) = scheduler_step(&cfg, state, ok());
    assert_eq!(state, SchedulerState::GlobalRefresh);
    assert!(matches!(action, SchedulerAction::RefreshAllMetadata));
    let (state, action) = scheduler_step(&cfg, state, ok());
    assert_eq!(state, SchedulerState::RoundValidation);
    assert!(matches!(action, SchedulerAction::CheckSession));
}

#[test]
fn one_failing_collection_does_not_stop_the_round() {
    // two collections; the first one's pipeline fails, the second is still
    // processed and the round still ends in its full sleep
    let cfg = config(60, vec![("100", "./a"), ("200", "./b")]);
    let state = SchedulerState::RoundValidation;
    let (state, action) = scheduler_step(&cfg, state, ok());
    assert_eq!(state, SchedulerState::ProcessingCollections { next_index: 0 });
    match action {
        SchedulerAction::SyncCollection { id, directory } => {
            assert_eq!(id, 100);
            assert_eq!(directory, "./a");
        },
        _ => panic!("expected the first collection"),
    }
    let (state, action) = scheduler_step(&cfg, state, fail("activation failed"));
    assert_eq!(state, SchedulerState::ProcessingCollections { next_index: 1 });
    match action {
        SchedulerAction::SyncCollection { id, directory } => {
            assert_eq!(id, 200);
            assert_eq!(directory, "./b");
        },
        _ => panic!("the second collection must still be processed"),
    }
    let (state, action) = scheduler_step(&cfg, state, ok());
    assert_eq!(state, SchedulerState::Sleeping);
    assert!(matches!(action, SchedulerAction::SleepFor { seconds: 60 }));
    let (state, action) = scheduler_step(&cfg, state, ok());
    assert_eq!(state, SchedulerState::RoundValidation);
    assert!(matches!(action, SchedulerAction::CheckSession));
}

#[test]
fn sleep_is_the_configured_interval_whatever_the_round_did() {
    let cfg = config(300, vec![("1", "./a"), ("2", "./b"), ("3", "./c")]);
    let mut state = SchedulerState::RoundValidation;
    let mut sleeps: u32 = 0;
    let outcomes = [ok(), fail("x"), fail("y"), ok()];
    for outcome in outcomes {
        let (next, action) = scheduler_step(&cfg, state, outcome);
        if next == SchedulerState::Sleeping {
            assert!(matches!(action, SchedulerAction::SleepFor { seconds: 300 }));
            sleeps += 1;
        }
        state = next;
    }
    assert_eq!(sleeps, 1);
}

#[test]
fn session_failure_at_startup_escalates_and_terminates() {
    let cfg = config(60, vec![("100", "./a")]);
    let (state, _) = scheduler_init();
    let (state, action) = scheduler_step(&cfg, state, fail("login refused"));
    assert_eq!(state, SchedulerState::Terminated);
    match action {
        SchedulerAction::EscalateAndStop { failure } => {
            assert_eq!(failure.subject, "session establishment failed");
            assert!(failure.message.contains("login refused"));
            assert!(failure.message.contains(&failure.timestamp));
        },
        _ => panic!("a startup session failure must escalate"),
    }
}

#[test]
fn session_expiry_before_a_round_escalates_and_terminates() {
    // a credential check failing on a later round raises exactly one critical
    // failure and ends the loop
    let cfg = config(60, vec![("100", "./a")]);
    let (state, action) = scheduler_step(&cfg, SchedulerState::RoundValidation, fail("cookie expired"));
    assert_eq!(state, SchedulerState::Terminated);
    match action {
        SchedulerAction::EscalateAndStop { failure } => {
            assert_eq!(failure.subject, "session expired");
            assert!(failure.message.contains("cookie expired"));
        },
        _ => panic!("an expired session must escalate"),
    }
}

#[test]
fn global_refresh_failure_aborts_without_notification() {
    let cfg = config(60, vec![("100", "./a")]);
    let (state, action) = scheduler_step(&cfg, SchedulerState::GlobalRefresh, fail("refresh broke"));
    assert_eq!(state, SchedulerState::Terminated);
    match action {
        SchedulerAction::AbortStartup { message } => {
            assert_eq!(message, "initial metadata refresh failed: refresh broke");
        },
        _ => panic!("a failed baseline refresh is a plain startup fault"),
    }
}

#[test]
fn empty_collection_set_sleeps_immediately() {
    let cfg = config(60, vec![]);
    let (state, action) = scheduler_step(&cfg, SchedulerState::RoundValidation, ok());
    assert_eq!(state, SchedulerState::Sleeping);
    assert!(matches!(action, SchedulerAction::SleepFor { seconds: 60 }));
}
