use avalancheup::deletion::{DeletionOutcome, DeletionSession, SessionAction, SessionEvent, SessionStage};
use avalancheup::gate::{confirmed, CONFIRM_OPTION, DECLINE_OPTION};
use avalancheup::key::{
    pending_window_accepted, settle_schedule_result, KeyError, KeyState, ScheduleOutcome, SigningKey,
};

const ARN: &str = "arn:aws:kms:us-west-2:123456789012:key/abcd";

#[test]
fn gate_opens_only_on_affirmative_option() {
    assert!(!confirmed(false, DECLINE_OPTION));
    assert!(confirmed(false, CONFIRM_OPTION));
    assert!(!confirmed(false, 2));
    assert!(confirmed(true, DECLINE_OPTION));
}

#[test]
fn pending_window_bounds() {
    assert!(!pending_window_accepted(6));
    assert!(pending_window_accepted(7));
    assert!(pending_window_accepted(30));
    assert!(!pending_window_accepted(31));
    assert!(!pending_window_accepted(-7));
}

#[test]
fn deleted_key_cannot_be_loaded() {
    let r = SigningKey::load_by_reference(ARN.to_string(), KeyState::Deleted);
    assert!(matches!(r, Err(KeyError::KeyNotFound)));
}

#[test]
fn schedule_deletion_twice_reflects_pending_window() {
    let mut key = SigningKey::load_by_reference(ARN.to_string(), KeyState::Active).unwrap();
    assert_eq!(key.schedule_deletion(7), Ok(ScheduleOutcome::Scheduled));
    assert_eq!(key.state, KeyState::PendingDeletion { window_days: 7 });
    assert_eq!(key.reference, ARN);
    assert_eq!(key.schedule_deletion(7), Ok(ScheduleOutcome::AlreadyScheduled));
    assert_eq!(key.state, KeyState::PendingDeletion { window_days: 7 });
}

#[test]
fn schedule_deletion_rejects_bad_window_and_deleted_key() {
    let mut key = SigningKey { reference: ARN.to_string(), state: KeyState::Active };
    assert_eq!(key.schedule_deletion(3), Err(KeyError::InvalidPendingWindow));
    assert_eq!(key.state, KeyState::Active);
    let mut gone = SigningKey { reference: ARN.to_string(), state: KeyState::Deleted };
    assert_eq!(gone.schedule_deletion(10), Err(KeyError::KeyNotFound));
}

#[test]
fn already_scheduled_counts_as_success() {
    assert_eq!(
        settle_schedule_result(Err(KeyError::AlreadyScheduled)),
        Ok(ScheduleOutcome::AlreadyScheduled)
    );
    assert_eq!(
        settle_schedule_result(Err(KeyError::RemoteServiceError)),
        Err(KeyError::RemoteServiceError)
    );
    assert_eq!(settle_schedule_result(Ok(ScheduleOutcome::Scheduled)), Ok(ScheduleOutcome::Scheduled));
}

fn session_until_prompt(days: i32) -> DeletionSession {
    let mut s = DeletionSession::new(days);
    assert_eq!(s.step(SessionEvent::Begin), SessionAction::ResolveIdentity);
    assert_eq!(s.step(SessionEvent::IdentityResolved(Ok(()))), SessionAction::LoadKey);
    assert_eq!(s.step(SessionEvent::KeyLoaded(Ok(KeyState::Active))), SessionAction::AskConfirmation);
    s
}

#[test]
fn session_schedules_after_confirmation() {
    let mut s = session_until_prompt(7);
    assert_eq!(
        s.step(SessionEvent::ChoiceMade(CONFIRM_OPTION)),
        SessionAction::ScheduleDeletion { days: 7 }
    );
    assert_eq!(
        s.step(SessionEvent::DeletionAnswered(Ok(()))),
        SessionAction::Finish(Ok(DeletionOutcome::Scheduled))
    );
    assert_eq!(s.stage, SessionStage::Finished);
}

#[test]
fn session_declined_makes_no_request() {
    let mut s = session_until_prompt(7);
    assert_eq!(
        s.step(SessionEvent::ChoiceMade(DECLINE_OPTION)),
        SessionAction::Finish(Ok(DeletionOutcome::Declined))
    );
    assert_eq!(s.step(SessionEvent::ChoiceMade(CONFIRM_OPTION)), SessionAction::Idle);
    assert_eq!(s.step(SessionEvent::DeletionAnswered(Ok(()))), SessionAction::Idle);
}

#[test]
fn session_repeated_request_succeeds() {
    let mut s = session_until_prompt(14);
    assert_eq!(
        s.step(SessionEvent::ChoiceMade(CONFIRM_OPTION)),
        SessionAction::ScheduleDeletion { days: 14 }
    );
    assert_eq!(
        s.step(SessionEvent::DeletionAnswered(Err(KeyError::AlreadyScheduled))),
        SessionAction::Finish(Ok(DeletionOutcome::AlreadyScheduled))
    );
}

#[test]
fn session_surfaces_remote_failure() {
    let mut s = session_until_prompt(7);
    s.step(SessionEvent::ChoiceMade(CONFIRM_OPTION));
    assert_eq!(
        s.step(SessionEvent::DeletionAnswered(Err(KeyError::RemoteServiceError))),
        SessionAction::Finish(Err(KeyError::RemoteServiceError))
    );
}

#[test]
fn session_rejects_bad_window_before_any_call() {
    let mut s = DeletionSession::new(5);
    assert_eq!(
        s.step(SessionEvent::Begin),
        SessionAction::Finish(Err(KeyError::InvalidPendingWindow))
    );
}

#[test]
fn session_stops_on_missing_credentials_or_key() {
    let mut s = DeletionSession::new(7);
    s.step(SessionEvent::Begin);
    assert_eq!(
        s.step(SessionEvent::IdentityResolved(Err(KeyError::ConfigurationError))),
        SessionAction::Finish(Err(KeyError::ConfigurationError))
    );
    let mut t = DeletionSession::new(7);
    t.step(SessionEvent::Begin);
    t.step(SessionEvent::IdentityResolved(Ok(())));
    assert_eq!(
        t.step(SessionEvent::KeyLoaded(Ok(KeyState::Deleted))),
        SessionAction::Finish(Err(KeyError::KeyNotFound))
    );
}

#[test]
fn session_ignores_out_of_order_events() {
    let mut s = DeletionSession::new(7);
    assert_eq!(s.step(SessionEvent::ChoiceMade(CONFIRM_OPTION)), SessionAction::Idle);
    assert_eq!(s.stage, SessionStage::Start);
}
