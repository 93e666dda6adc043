//! Custody of signing keys held by a managed key service: the key's
//! lifecycle, and what a deletion request does to it.
use vstd::prelude::*;

verus! {

/// Shortest pending-deletion window the key service accepts, in days.
pub const MIN_PENDING_WINDOW_DAYS: i32 = 7;

/// Longest pending-deletion window the key service accepts, in days.
pub const MAX_PENDING_WINDOW_DAYS: i32 = 30;

/// Lifecycle of a key as the key service reports it.
#[derive(Clone, Copy, Debug, PartialEq, Eq, Structural)]
pub enum KeyState {
    Active,
    PendingDeletion { window_days: i32 },
    Deleted,
}

/// What can go wrong while handling a signing key.
#[derive(Clone, Copy, Debug, PartialEq, Eq, Structural)]
pub enum KeyError {
    /// No credential chain or region could be resolved.
    ConfigurationError,
    /// The reference names no key, or a key that is already deleted.
    KeyNotFound,
    /// The key service already has a deletion scheduled for the key.
    AlreadyScheduled,
    /// The pending window lies outside what the key service accepts.
    InvalidPendingWindow,
    /// A remote call failed; it is not retried.
    RemoteServiceError,
}

/// How a deletion request ended when it did not fail.
#[derive(Clone, Copy, Debug, PartialEq, Eq, Structural)]
pub enum ScheduleOutcome {
    /// The key moved to its pending-deletion state.
    Scheduled,
    /// The key was pending deletion already; nothing changed.
    AlreadyScheduled,
}

pub open spec fn window_accepted(days: i32) -> bool {
    MIN_PENDING_WINDOW_DAYS <= days && days <= MAX_PENDING_WINDOW_DAYS
}

/// Whether a pending window lies in the range the key service accepts.
pub fn pending_window_accepted(days: i32) -> (r: bool)
    ensures
        r == window_accepted(days),
{
    MIN_PENDING_WINDOW_DAYS <= days && days <= MAX_PENDING_WINDOW_DAYS
}

/// Effect of a deletion request on a key in state `state`: the next state and
/// the answer.
pub open spec fn schedule_transition(state: KeyState, days: i32) -> (KeyState, Result<ScheduleOutcome, KeyError>) {
    if !window_accepted(days) {
        (state, Err(KeyError::InvalidPendingWindow))
    } else {
        match state {
            KeyState::Active => (KeyState::PendingDeletion { window_days: days }, Ok(ScheduleOutcome::Scheduled)),
            KeyState::PendingDeletion { .. } => (state, Ok(ScheduleOutcome::AlreadyScheduled)),
            KeyState::Deleted => (state, Err(KeyError::KeyNotFound)),
        }
    }
}

/// A key held by the key service, known here by its reference and its
/// lifecycle state; the private material never leaves the service.
#[derive(Clone, Debug)]
pub struct SigningKey {
    pub reference: String,
    pub state: KeyState,
}

impl SigningKey {
    /// Builds the local record of a key from what the key service described.
    /// A deleted key cannot be loaded.
    pub fn load_by_reference(reference: String, state: KeyState) -> (r: Result<SigningKey, KeyError>)
        ensures
            state is Deleted ==> r == Err::<SigningKey, KeyError>(KeyError::KeyNotFound),
            state !is Deleted ==> (r matches Ok(k) && k.reference@ == reference@ && k.state == state),
    {
        match state {
            KeyState::Deleted => Err(KeyError::KeyNotFound),
            _ => Ok(SigningKey { reference, state }),
        }
    }

    /// Records a deletion request on the key: an active key becomes pending
    /// deletion for `days` days, a key already pending stays as it is and the
    /// answer says so.
    pub fn schedule_deletion(&mut self, days: i32) -> (r: Result<ScheduleOutcome, KeyError>)
        ensures
            (final(self).state, r) == schedule_transition(old(self).state, days),
            final(self).reference@ == old(self).reference@,
    {
        if !pending_window_accepted(days) {
            return Err(KeyError::InvalidPendingWindow);
        }
        match self.state {
            KeyState::Active => {
                self.state = KeyState::PendingDeletion { window_days: days };
                Ok(ScheduleOutcome::Scheduled)
            },
            KeyState::PendingDeletion { .. } => Ok(ScheduleOutcome::AlreadyScheduled),
            KeyState::Deleted => Err(KeyError::KeyNotFound),
        }
    }
}

/// A request that is already scheduled counts as done.
pub open spec fn settled(r: Result<ScheduleOutcome, KeyError>) -> Result<ScheduleOutcome, KeyError> {
    match r {
        Err(KeyError::AlreadyScheduled) => Ok(ScheduleOutcome::AlreadyScheduled),
        _ => r,
    }
}

/// Folds the key service's "already scheduled" refusal into success, so that
/// a repeated request is not reported as a failure.
pub fn settle_schedule_result(r: Result<ScheduleOutcome, KeyError>) -> (s: Result<ScheduleOutcome, KeyError>)
    ensures
        s == settled(r),
{
    match r {
        Err(KeyError::AlreadyScheduled) => Ok(ScheduleOutcome::AlreadyScheduled),
        _ => r,
    }
}

/// Scheduling a deletion with a seven-day window leaves the key pending
/// deletion for seven days, and asking again succeeds without changing it.
pub proof fn lemma_schedule_deletion_twice(state: KeyState)
    requires
        state is Active,
    ensures
        schedule_transition(state, 7).0 == (KeyState::PendingDeletion { window_days: 7 }),
        schedule_transition(state, 7).1 == Ok::<ScheduleOutcome, KeyError>(ScheduleOutcome::Scheduled),
        schedule_transition(schedule_transition(state, 7).0, 7).0 == schedule_transition(state, 7).0,
        settled(schedule_transition(schedule_transition(state, 7).0, 7).1) is Ok,
{
}

} // verus!
