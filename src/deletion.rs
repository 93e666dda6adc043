//! The session that schedules the deletion of one signing key. The caller
//! performs each action the session asks for (resolving credentials, loading
//! the key, prompting, the remote request) and hands back what happened.
use vstd::prelude::*;
use crate::gate::{confirmed, proceeds, CONFIRM_OPTION};
use crate::key::{pending_window_accepted, window_accepted, KeyError, KeyState};

verus! {

#[derive(Clone, Copy, Debug, PartialEq, Eq, Structural)]
pub enum SessionStage {
    Start,
    ResolvingIdentity,
    LoadingKey,
    Confirming,
    Scheduling,
    Finished,
}

/// What the caller reports back after performing the last action.
#[derive(Clone, Copy, Debug, PartialEq, Eq)]
pub enum SessionEvent {
    /// The session is started.
    Begin,
    /// Credentials and region were resolved, and the caller's identity read.
    IdentityResolved(Result<(), KeyError>),
    /// The key service described the key.
    KeyLoaded(Result<KeyState, KeyError>),
    /// The user picked the option at this position.
    ChoiceMade(usize),
    /// The key service answered the deletion request.
    DeletionAnswered(Result<(), KeyError>),
}

/// How a finished session ended when it did not fail.
#[derive(Clone, Copy, Debug, PartialEq, Eq, Structural)]
pub enum DeletionOutcome {
    /// The user declined; nothing was changed remotely.
    Declined,
    /// The key is now pending deletion.
    Scheduled,
    /// The key was pending deletion already.
    AlreadyScheduled,
}

/// What the caller is to do next.
#[derive(Clone, Copy, Debug, PartialEq, Eq)]
pub enum SessionAction {
    /// Resolve credentials for the region and read the caller's identity.
    ResolveIdentity,
    /// Describe the key by its reference.
    LoadKey,
    /// Show the key and the two options, decline first and preselected.
    AskConfirmation,
    /// Ask the key service to delete the key after `days` days.
    ScheduleDeletion { days: i32 },
    /// The session is over, with this result.
    Finish(Result<DeletionOutcome, KeyError>),
    /// The event did not fit the stage; nothing is to be done.
    Idle,
}

/// The session's transition table: next stage and action for an event.
pub open spec fn session_transition(stage: SessionStage, days: i32, event: SessionEvent) -> (SessionStage, SessionAction) {
    match (stage, event) {
        (SessionStage::Start, SessionEvent::Begin) => if window_accepted(days) {
            (SessionStage::ResolvingIdentity, SessionAction::ResolveIdentity)
        } else {
            (SessionStage::Finished, SessionAction::Finish(Err(KeyError::InvalidPendingWindow)))
        },
        (SessionStage::ResolvingIdentity, SessionEvent::IdentityResolved(r)) => match r {
            Ok(_) => (SessionStage::LoadingKey, SessionAction::LoadKey),
            Err(e) => (SessionStage::Finished, SessionAction::Finish(Err(e))),
        },
        (SessionStage::LoadingKey, SessionEvent::KeyLoaded(r)) => match r {
            Ok(KeyState::Deleted) => (SessionStage::Finished, SessionAction::Finish(Err(KeyError::KeyNotFound))),
            Ok(_) => (SessionStage::Confirming, SessionAction::AskConfirmation),
            Err(e) => (SessionStage::Finished, SessionAction::Finish(Err(e))),
        },
        (SessionStage::Confirming, SessionEvent::ChoiceMade(c)) => if proceeds(false, c) {
            (SessionStage::Scheduling, SessionAction::ScheduleDeletion { days })
        } else {
            (SessionStage::Finished, SessionAction::Finish(Ok(DeletionOutcome::Declined)))
        },
        (SessionStage::Scheduling, SessionEvent::DeletionAnswered(r)) => match r {
            Ok(_) => (SessionStage::Finished, SessionAction::Finish(Ok(DeletionOutcome::Scheduled))),
            Err(KeyError::AlreadyScheduled) => (SessionStage::Finished, SessionAction::Finish(Ok(DeletionOutcome::AlreadyScheduled))),
            Err(e) => (SessionStage::Finished, SessionAction::Finish(Err(e))),
        },
        _ => (stage, SessionAction::Idle),
    }
}

/// A deletion session for one key with a fixed pending window.
#[derive(Clone, Copy, Debug)]
pub struct DeletionSession {
    pub pending_window_days: i32,
    pub stage: SessionStage,
}

impl DeletionSession {
    pub fn new(pending_window_days: i32) -> (r: DeletionSession)
        ensures
            r.pending_window_days == pending_window_days,
            r.stage == SessionStage::Start,
    {
        DeletionSession { pending_window_days, stage: SessionStage::Start }
    }

    /// Moves the session on by one event and returns the next action.
    pub fn step(&mut self, event: SessionEvent) -> (a: SessionAction)
        ensures
            final(self).pending_window_days == old(self).pending_window_days,
            (final(self).stage, a) == session_transition(old(self).stage, old(self).pending_window_days, event),
    {
        let days = self.pending_window_days;
        let (stage, action) = match (self.stage, event) {
            (SessionStage::Start, SessionEvent::Begin) => if pending_window_accepted(days) {
                (SessionStage::ResolvingIdentity, SessionAction::ResolveIdentity)
            } else {
                (SessionStage::Finished, SessionAction::Finish(Err(KeyError::InvalidPendingWindow)))
            },
            (SessionStage::ResolvingIdentity, SessionEvent::IdentityResolved(r)) => match r {
                Ok(_) => (SessionStage::LoadingKey, SessionAction::LoadKey),
                Err(e) => (SessionStage::Finished, SessionAction::Finish(Err(e))),
            },
            (SessionStage::LoadingKey, SessionEvent::KeyLoaded(r)) => match r {
                Ok(KeyState::Deleted) => (SessionStage::Finished, SessionAction::Finish(Err(KeyError::KeyNotFound))),
                Ok(_) => (SessionStage::Confirming, SessionAction::AskConfirmation),
                Err(e) => (SessionStage::Finished, SessionAction::Finish(Err(e))),
            },
            (SessionStage::Confirming, SessionEvent::ChoiceMade(c)) => if confirmed(false, c) {
                (SessionStage::Scheduling, SessionAction::ScheduleDeletion { days })
            } else {
                (SessionStage::Finished, SessionAction::Finish(Ok(DeletionOutcome::Declined)))
            },
            (SessionStage::Scheduling, SessionEvent::DeletionAnswered(r)) => match r {
                Ok(_) => (SessionStage::Finished, SessionAction::Finish(Ok(DeletionOutcome::Scheduled))),
                Err(KeyError::AlreadyScheduled) => (SessionStage::Finished, SessionAction::Finish(Ok(DeletionOutcome::AlreadyScheduled))),
                Err(e) => (SessionStage::Finished, SessionAction::Finish(Err(e))),
            },
            _ => (self.stage, SessionAction::Idle),
        };
        self.stage = stage;
        action
    }
}

/// The deletion request is issued only from the confirmation stage, on the
/// affirmative option; no other stage or event leads to it.
pub proof fn lemma_deletion_only_after_confirmation(stage: SessionStage, days: i32, event: SessionEvent)
    ensures
        session_transition(stage, days, event).1 is ScheduleDeletion ==> stage == SessionStage::Confirming
            && event == SessionEvent::ChoiceMade(CONFIRM_OPTION),
{
}

/// A declining choice ends the session cleanly, with no remote change, and a
/// finished session asks for nothing more.
pub proof fn lemma_declined_deletion_is_inert(days: i32, choice: usize, later: SessionEvent)
    requires
        choice != CONFIRM_OPTION,
    ensures
        session_transition(SessionStage::Confirming, days, SessionEvent::ChoiceMade(choice)) == (
            SessionStage::Finished,
            SessionAction::Finish(Ok(DeletionOutcome::Declined)),
        ),
        session_transition(SessionStage::Finished, days, later) == (SessionStage::Finished, SessionAction::Idle),
{
}

/// A request that the key service refuses as already scheduled ends the
/// session in success.
pub proof fn lemma_repeated_request_succeeds(days: i32)
    ensures
        session_transition(SessionStage::Scheduling, days, SessionEvent::DeletionAnswered(Err(KeyError::AlreadyScheduled)))
            == (SessionStage::Finished, SessionAction::Finish(Ok(DeletionOutcome::AlreadyScheduled))),
{
}

} // verus!
