//! Apply: brings the cloud environment in line with the spec, group by group
//! in dependency order, creating only what has no recorded identifier. The
//! caller performs each action (a creation call, a status poll, saving the
//! spec) and hands back what happened.
use vstd::prelude::*;
use crate::teardown::{is_present, present};

verus! {

/// Number of resource groups that apply reconciles.
pub const GROUP_COUNT: usize = 4;

/// The resource groups, in dependency order: keys first, then networking,
/// then compute, then telemetry.
#[derive(Clone, Copy, Debug, PartialEq, Eq, Structural)]
pub enum ResourceGroup {
    SigningKeys,
    Network,
    Validators,
    Telemetry,
}

pub open spec fn group_rank(g: ResourceGroup) -> nat {
    match g {
        ResourceGroup::SigningKeys => 0,
        ResourceGroup::Network => 1,
        ResourceGroup::Validators => 2,
        ResourceGroup::Telemetry => 3,
    }
}

pub open spec fn group_of(i: nat) -> ResourceGroup {
    if i == 0 {
        ResourceGroup::SigningKeys
    } else if i == 1 {
        ResourceGroup::Network
    } else if i == 2 {
        ResourceGroup::Validators
    } else {
        ResourceGroup::Telemetry
    }
}

impl ResourceGroup {
    /// The group at a position of the dependency order.
    pub fn at_position(i: usize) -> (r: ResourceGroup)
        requires
            i < GROUP_COUNT,
        ensures
            r == group_of(i as nat),
            group_rank(r) == i,
    {
        if i == 0 {
            ResourceGroup::SigningKeys
        } else if i == 1 {
            ResourceGroup::Network
        } else if i == 2 {
            ResourceGroup::Validators
        } else {
            ResourceGroup::Telemetry
        }
    }
}

/// Where the group being reconciled stands.
#[derive(Clone, Copy, Debug, PartialEq, Eq, Structural)]
pub enum ApplyPhase {
    /// Nothing has been looked at yet.
    NotStarted,
    /// The creation call for the current group is issued.
    Requested,
    /// The creation was accepted; its handle is recorded and the spec is
    /// being saved before polling starts.
    Recording,
    /// Waiting for the backend to finish provisioning the current group.
    Provisioning,
    /// The current group's identifier is recorded; the spec is being saved.
    Persisting,
    /// Every group has its identifier.
    Provisioned,
    /// The run stopped on an error.
    Failed,
}

/// What a status poll of the backend said.
#[derive(Clone, Debug, PartialEq, Eq)]
pub enum PollStatus {
    Pending,
    /// Done, with the identifier that the cloud assigned.
    Succeeded(String),
    Failed,
}

/// What the caller reports back after performing the last action.
#[derive(Clone, Debug, PartialEq, Eq)]
pub enum ApplyEvent {
    /// The run is started.
    Begin,
    /// The creation call was accepted, with the handle of the backend
    /// operation, or refused (`None`).
    CreateAnswered(Option<String>),
    Polled(PollStatus),
    /// The spec was saved.
    Persisted,
}

#[derive(Clone, Copy, Debug, PartialEq, Eq, Structural)]
pub enum ApplyError {
    /// The backend refused or failed to create the group.
    ResourceCreationError(ResourceGroup),
    /// The group did not finish within the allowed number of polls.
    ProvisioningTimeout(ResourceGroup),
}

/// What the caller is to do next.
#[derive(Clone, Copy, Debug, PartialEq, Eq, Structural)]
pub enum ApplyAction {
    /// Issue the creation call for the group.
    Create(ResourceGroup),
    /// Poll the status of the group's creation, after a backoff.
    Poll(ResourceGroup),
    /// Save the spec with the identifiers recorded so far.
    Persist,
    /// All groups are provisioned.
    Done,
    /// Stop the run with this error; groups provisioned so far stay.
    Fail(ApplyError),
    /// The event did not fit the phase; nothing is to be done.
    Idle,
}

/// Two to the power `n`.
pub open spec fn two_to(n: nat) -> nat
    decreases n,
{
    if n == 0 {
        1
    } else {
        2 * two_to((n - 1) as nat)
    }
}

/// The wait before poll number `attempt`: doubling from `base`, never above
/// `cap`.
pub open spec fn backoff(base: nat, attempt: nat, cap: nat) -> nat {
    if base * two_to(attempt) <= cap {
        base * two_to(attempt)
    } else {
        cap
    }
}

proof fn lemma_two_to_grows(a: nat, b: nat)
    requires
        a <= b,
    ensures
        two_to(a) <= two_to(b),
        1 <= two_to(a),
    decreases b,
{
    if b > 0 {
        if a < b {
            lemma_two_to_grows(a, (b - 1) as nat);
        } else {
            lemma_two_to_grows((b - 1) as nat, (b - 1) as nat);
        }
    }
}

/// The wait, in milliseconds, before poll number `attempt` of a group: the
/// waits double from `base_ms` and are bounded by `cap_ms`.
pub fn backoff_delay_ms(base_ms: u64, attempt: u32, cap_ms: u64) -> (r: u64)
    ensures
        r as nat == backoff(base_ms as nat, attempt as nat, cap_ms as nat),
{
    proof {
        lemma_two_to_grows(0, attempt as nat);
        assert(base_ms * two_to(attempt as nat) >= base_ms) by (nonlinear_arith)
            requires
                two_to(attempt as nat) >= 1,
        ;
    }
    if base_ms > cap_ms {
        return cap_ms;
    }
    let mut d: u64 = base_ms;
    let mut i: u32 = 0;
    while i < attempt
        invariant
            i <= attempt,
            d <= cap_ms,
            d as nat == base_ms * two_to(i as nat),
        decreases attempt - i,
    {
        if d > cap_ms / 2 {
            proof {
                lemma_two_to_grows((i + 1) as nat, attempt as nat);
                let t = two_to((i + 1) as nat);
                let u = two_to(attempt as nat);
                assert(base_ms * t == 2 * (base_ms * two_to(i as nat))) by (nonlinear_arith)
                    requires
                        t == 2 * two_to(i as nat),
                ;
                assert(base_ms * t <= base_ms * u) by (nonlinear_arith)
                    requires
                        t <= u,
                ;
            }
            return cap_ms;
        }
        proof {
            assert(base_ms * two_to((i + 1) as nat) == 2 * (base_ms * two_to(i as nat))) by (nonlinear_arith)
                requires
                    two_to((i + 1) as nat) == 2 * two_to(i as nat),
            ;
        }
        d = d * 2;
        i = i + 1;
    }
    d
}

/// The reconciler's state as values.
pub struct ApplyView {
    pub ids: Seq<Option<String>>,
    pub handles: Seq<Option<String>>,
    pub current: nat,
    pub phase: ApplyPhase,
    pub polls: nat,
    pub max_polls: nat,
}

/// The first group at or after `from` that has no recorded identifier, or
/// `GROUP_COUNT` when there is none.
pub open spec fn first_missing(ids: Seq<Option<String>>, from: nat) -> nat
    decreases GROUP_COUNT - from,
{
    if from >= GROUP_COUNT {
        GROUP_COUNT as nat
    } else if !present(ids[from as int]) {
        from
    } else {
        first_missing(ids, from + 1)
    }
}

/// Moves past the groups that already have an identifier, to the next one
/// to create, or to resume polling when its creation was requested before,
/// or to the end.
pub open spec fn advance(s: ApplyView, from: nat) -> (ApplyView, ApplyAction) {
    let i = first_missing(s.ids, from);
    if i >= GROUP_COUNT {
        (ApplyView { current: GROUP_COUNT as nat, phase: ApplyPhase::Provisioned, polls: 0, ..s }, ApplyAction::Done)
    } else if present(s.handles[i as int]) {
        (ApplyView { current: i, phase: ApplyPhase::Provisioning, polls: 0, ..s }, ApplyAction::Poll(group_of(i)))
    } else {
        (ApplyView { current: i, phase: ApplyPhase::Requested, polls: 0, ..s }, ApplyAction::Create(group_of(i)))
    }
}

pub open spec fn failed(s: ApplyView, e: ApplyError) -> (ApplyView, ApplyAction) {
    (ApplyView { phase: ApplyPhase::Failed, ..s }, ApplyAction::Fail(e))
}

/// The reconciler's transition table: next state and action for an event.
pub open spec fn apply_transition(s: ApplyView, event: ApplyEvent) -> (ApplyView, ApplyAction) {
    let g = group_of(s.current);
    match (s.phase, event) {
        (ApplyPhase::NotStarted, ApplyEvent::Begin) => advance(s, 0),
        (ApplyPhase::Requested, ApplyEvent::CreateAnswered(answer)) => if present(answer) {
            (
                ApplyView { handles: s.handles.update(s.current as int, answer), phase: ApplyPhase::Recording, ..s },
                ApplyAction::Persist,
            )
        } else {
            failed(s, ApplyError::ResourceCreationError(g))
        },
        (ApplyPhase::Recording, ApplyEvent::Persisted) => (
            ApplyView { phase: ApplyPhase::Provisioning, polls: 0, ..s },
            ApplyAction::Poll(g),
        ),
        (ApplyPhase::Provisioning, ApplyEvent::Polled(status)) => match status {
            PollStatus::Pending => if s.polls + 1 >= s.max_polls {
                failed(s, ApplyError::ProvisioningTimeout(g))
            } else {
                (ApplyView { polls: s.polls + 1, ..s }, ApplyAction::Poll(g))
            },
            PollStatus::Succeeded(id) => if id@.len() > 0 {
                (
                    ApplyView {
                        ids: s.ids.update(s.current as int, Some(id)),
                        handles: s.handles.update(s.current as int, None),
                        phase: ApplyPhase::Persisting,
                        ..s
                    },
                    ApplyAction::Persist,
                )
            } else {
                failed(s, ApplyError::ResourceCreationError(g))
            },
            PollStatus::Failed => failed(s, ApplyError::ResourceCreationError(g)),
        },
        (ApplyPhase::Persisting, ApplyEvent::Persisted) => advance(s, s.current + 1),
        _ => (s, ApplyAction::Idle),
    }
}

pub open spec fn apply_wf(s: ApplyView) -> bool {
    &&& s.ids.len() == GROUP_COUNT
    &&& s.handles.len() == GROUP_COUNT
    &&& s.current <= GROUP_COUNT
    &&& 0 < s.max_polls
    &&& forall|i: int| 0 <= i < s.current ==> present(#[trigger] s.ids[i])
    &&& s.phase == ApplyPhase::NotStarted ==> s.current == 0
    &&& s.phase == ApplyPhase::Provisioned ==> s.current == GROUP_COUNT
    &&& (s.phase == ApplyPhase::Requested || s.phase == ApplyPhase::Recording
        || s.phase == ApplyPhase::Provisioning || s.phase == ApplyPhase::Persisting) ==> s.current < GROUP_COUNT
    &&& s.phase == ApplyPhase::Persisting ==> present(s.ids[s.current as int])
    &&& s.phase == ApplyPhase::Provisioning ==> s.polls < s.max_polls
}

/// The reconciler for one apply run.
#[derive(Debug)]
pub struct Reconciler {
    pub ids: Vec<Option<String>>,
    pub handles: Vec<Option<String>>,
    pub current: usize,
    pub phase: ApplyPhase,
    pub polls: u32,
    pub max_polls: u32,
}

impl Reconciler {
    pub open spec fn view(&self) -> ApplyView {
        ApplyView {
            ids: self.ids@,
            handles: self.handles@,
            current: self.current as nat,
            phase: self.phase,
            polls: self.polls as nat,
            max_polls: self.max_polls as nat,
        }
    }

    pub open spec fn wf(&self) -> bool {
        apply_wf(self.view())
    }

    /// A reconciler over the identifiers recorded in the spec and the handles
    /// of creations requested but not seen to finish, one slot per group in
    /// dependency order, that waits at most `max_polls` polls for a group to
    /// be provisioned.
    pub fn new(ids: Vec<Option<String>>, handles: Vec<Option<String>>, max_polls: u32) -> (r: Reconciler)
        requires
            ids@.len() == GROUP_COUNT,
            handles@.len() == GROUP_COUNT,
            max_polls > 0,
        ensures
            r.wf(),
            r.ids@ == ids@,
            r.handles@ == handles@,
            r.current == 0,
            r.phase == ApplyPhase::NotStarted,
            r.polls == 0,
            r.max_polls == max_polls,
    {
        Reconciler { ids, handles, current: 0, phase: ApplyPhase::NotStarted, polls: 0, max_polls }
    }

    fn advance_from(&mut self, from: usize) -> (a: ApplyAction)
        requires
            from <= GROUP_COUNT,
            old(self).ids@.len() == GROUP_COUNT,
            old(self).handles@.len() == GROUP_COUNT,
        ensures
            (final(self).view(), a) == advance(old(self).view(), from as nat),
    {
        let mut i: usize = from;
        while i < GROUP_COUNT && is_present(&self.ids[i])
            invariant
                from <= i <= GROUP_COUNT,
                self.ids@.len() == GROUP_COUNT,
                first_missing(self.ids@, from as nat) == first_missing(self.ids@, i as nat),
            decreases GROUP_COUNT - i,
        {
            i = i + 1;
        }
        self.polls = 0;
        if i >= GROUP_COUNT {
            self.current = GROUP_COUNT;
            self.phase = ApplyPhase::Provisioned;
            ApplyAction::Done
        } else if is_present(&self.handles[i]) {
            self.current = i;
            self.phase = ApplyPhase::Provisioning;
            ApplyAction::Poll(ResourceGroup::at_position(i))
        } else {
            self.current = i;
            self.phase = ApplyPhase::Requested;
            ApplyAction::Create(ResourceGroup::at_position(i))
        }
    }

    /// Moves the run on by one event and returns the next action.
    pub fn step(&mut self, event: ApplyEvent) -> (a: ApplyAction)
        requires
            old(self).wf(),
        ensures
            final(self).wf(),
            (final(self).view(), a) == apply_transition(old(self).view(), event),
    {
        proof {
            lemma_transition_keeps_wf(self.view(), event);
        }
        match (self.phase, event) {
            (ApplyPhase::NotStarted, ApplyEvent::Begin) => self.advance_from(0),
            (ApplyPhase::Requested, ApplyEvent::CreateAnswered(answer)) => {
                let g = ResourceGroup::at_position(self.current);
                if is_present(&answer) {
                    self.handles.set(self.current, answer);
                    self.phase = ApplyPhase::Recording;
                    ApplyAction::Persist
                } else {
                    self.phase = ApplyPhase::Failed;
                    ApplyAction::Fail(ApplyError::ResourceCreationError(g))
                }
            },
            (ApplyPhase::Provisioning, ApplyEvent::Polled(status)) => {
                let g = ResourceGroup::at_position(self.current);
                match status {
                    PollStatus::Pending => if self.polls + 1 >= self.max_polls {
                        self.phase = ApplyPhase::Failed;
                        ApplyAction::Fail(ApplyError::ProvisioningTimeout(g))
                    } else {
                        self.polls = self.polls + 1;
                        ApplyAction::Poll(g)
                    },
                    PollStatus::Succeeded(id) => if !id.as_str().is_empty() {
                        self.ids.set(self.current, Some(id));
                        self.handles.set(self.current, None);
                        self.phase = ApplyPhase::Persisting;
                        ApplyAction::Persist
                    } else {
                        self.phase = ApplyPhase::Failed;
                        ApplyAction::Fail(ApplyError::ResourceCreationError(g))
                    },
                    PollStatus::Failed => {
                        self.phase = ApplyPhase::Failed;
                        ApplyAction::Fail(ApplyError::ResourceCreationError(g))
                    },
                }
            },
            (ApplyPhase::Recording, ApplyEvent::Persisted) => {
                self.phase = ApplyPhase::Provisioning;
                self.polls = 0;
                ApplyAction::Poll(ResourceGroup::at_position(self.current))
            },
            (ApplyPhase::Persisting, ApplyEvent::Persisted) => self.advance_from(self.current + 1),
            _ => ApplyAction::Idle,
        }
    }
}

proof fn lemma_first_missing(ids: Seq<Option<String>>, from: nat)
    requires
        ids.len() == GROUP_COUNT,
    ensures
        from <= GROUP_COUNT ==> from <= first_missing(ids, from),
        first_missing(ids, from) <= GROUP_COUNT,
        forall|i: int| from <= i < first_missing(ids, from) ==> present(#[trigger] ids[i]),
        first_missing(ids, from) < GROUP_COUNT ==> !present(ids[first_missing(ids, from) as int]),
    decreases GROUP_COUNT - from,
{
    if from < GROUP_COUNT && present(ids[from as int]) {
        lemma_first_missing(ids, from + 1);
    }
}

proof fn lemma_transition_keeps_wf(s: ApplyView, event: ApplyEvent)
    requires
        apply_wf(s),
    ensures
        apply_wf(apply_transition(s, event).0),
{
    lemma_first_missing(s.ids, 0);
    lemma_first_missing(s.ids, s.current + 1);
    let t = apply_transition(s, event).0;
    if s.phase == ApplyPhase::Provisioning {
        if let ApplyEvent::Polled(PollStatus::Succeeded(id)) = event {
            if id@.len() > 0 {
                assert forall|i: int| 0 <= i < t.current implies present(#[trigger] t.ids[i]) by {
                    assert(t.ids[i] == s.ids[i]);
                }
            }
        }
    }
}

/// The state of a run that has not begun, over the recorded identifiers and
/// handles.
pub open spec fn fresh_run(ids: Seq<Option<String>>, handles: Seq<Option<String>>, max_polls: nat) -> ApplyView {
    ApplyView { ids, handles, current: 0, phase: ApplyPhase::NotStarted, polls: 0, max_polls }
}

/// Apply asks to create only groups without a recorded identifier, and
/// without a creation already requested (that one is polled again). A run
/// that has finished leaves every group with an identifier, and a second run
/// over those identifiers ends at once, without a single creation call.
pub proof fn lemma_apply_is_idempotent(
    s: ApplyView,
    event: ApplyEvent,
    handles: Seq<Option<String>>,
    max_polls: nat,
    later: ApplyEvent,
)
    requires
        apply_wf(s),
        handles.len() == GROUP_COUNT,
        max_polls > 0,
    ensures
        apply_transition(s, event).1 matches ApplyAction::Create(g) ==> !present(s.ids[group_rank(g) as int])
            && !present(s.handles[group_rank(g) as int]),
        s.phase == ApplyPhase::Provisioned ==> forall|i: int| 0 <= i < GROUP_COUNT ==> present(#[trigger] s.ids[i]),
        s.phase == ApplyPhase::Provisioned ==> apply_transition(fresh_run(s.ids, handles, max_polls), ApplyEvent::Begin)
            == (ApplyView { current: GROUP_COUNT as nat, phase: ApplyPhase::Provisioned, ..fresh_run(s.ids, handles, max_polls) }, ApplyAction::Done),
        s.phase == ApplyPhase::Provisioned ==> apply_transition(s, later) == (s, ApplyAction::Idle),
{
    lemma_first_missing(s.ids, 0);
    lemma_first_missing(s.ids, s.current + 1);
    if s.phase == ApplyPhase::Provisioned {
        assert(first_missing(s.ids, 0) == GROUP_COUNT);
    }
}

/// A run that finds a group without an identifier but with a creation
/// already requested polls that creation again instead of creating anew.
pub proof fn lemma_requested_group_is_polled_again(ids: Seq<Option<String>>, handles: Seq<Option<String>>, max_polls: nat)
    requires
        ids.len() == GROUP_COUNT,
        handles.len() == GROUP_COUNT,
        first_missing(ids, 0) < GROUP_COUNT,
        present(handles[first_missing(ids, 0) as int]),
    ensures
        apply_transition(fresh_run(ids, handles, max_polls), ApplyEvent::Begin).1 == ApplyAction::Poll(
            group_of(first_missing(ids, 0)),
        ),
{
}

} // verus!
