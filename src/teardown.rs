//! Teardown: which resource classes to delete, in which order, and how the
//! results of the individual deletions are gathered into one report.
use vstd::prelude::*;
use crate::gate::{confirmed, proceeds, CONFIRM_OPTION};

verus! {

/// Number of resource classes that teardown knows.
pub const CLASS_COUNT: usize = 6;

/// The resource classes, listed in the order in which they are deleted: the
/// orchestration stack last, since it may own the others.
#[derive(Clone, Copy, Debug, PartialEq, Eq, Structural)]
pub enum ResourceClass {
    StorageObjects,
    StorageBucket,
    LogGroup,
    StaticIps,
    Volumes,
    Stack,
}

/// Position of a class in the deletion order, and its slot among the
/// recorded identifiers.
pub open spec fn rank(c: ResourceClass) -> nat {
    match c {
        ResourceClass::StorageObjects => 0,
        ResourceClass::StorageBucket => 1,
        ResourceClass::LogGroup => 2,
        ResourceClass::StaticIps => 3,
        ResourceClass::Volumes => 4,
        ResourceClass::Stack => 5,
    }
}

pub open spec fn class_of(i: nat) -> ResourceClass {
    if i == 0 {
        ResourceClass::StorageObjects
    } else if i == 1 {
        ResourceClass::StorageBucket
    } else if i == 2 {
        ResourceClass::LogGroup
    } else if i == 3 {
        ResourceClass::StaticIps
    } else if i == 4 {
        ResourceClass::Volumes
    } else {
        ResourceClass::Stack
    }
}

impl ResourceClass {
    /// The class's position in the deletion order.
    pub fn position(&self) -> (r: usize)
        ensures
            r == rank(*self),
            r < CLASS_COUNT,
    {
        match self {
            ResourceClass::StorageObjects => 0,
            ResourceClass::StorageBucket => 1,
            ResourceClass::LogGroup => 2,
            ResourceClass::StaticIps => 3,
            ResourceClass::Volumes => 4,
            ResourceClass::Stack => 5,
        }
    }

    /// The class at a position of the deletion order.
    pub fn at_position(i: usize) -> (r: ResourceClass)
        requires
            i < CLASS_COUNT,
        ensures
            r == class_of(i as nat),
            rank(r) == i,
    {
        if i == 0 {
            ResourceClass::StorageObjects
        } else if i == 1 {
            ResourceClass::StorageBucket
        } else if i == 2 {
            ResourceClass::LogGroup
        } else if i == 3 {
            ResourceClass::StaticIps
        } else if i == 4 {
            ResourceClass::Volumes
        } else {
            ResourceClass::Stack
        }
    }
}

/// The per-run deletion toggles and the confirmation waiver. Never persisted.
#[derive(Clone, Copy, Debug, PartialEq, Eq, Structural)]
pub struct DeletionPlan {
    pub delete_storage_objects: bool,
    pub delete_storage_bucket: bool,
    pub delete_log_group: bool,
    pub delete_static_ips: bool,
    pub delete_volumes: bool,
    pub delete_stack: bool,
    pub skip_confirmation: bool,
}

pub open spec fn enables(plan: DeletionPlan, c: ResourceClass) -> bool {
    match c {
        ResourceClass::StorageObjects => plan.delete_storage_objects,
        ResourceClass::StorageBucket => plan.delete_storage_bucket,
        ResourceClass::LogGroup => plan.delete_log_group,
        ResourceClass::StaticIps => plan.delete_static_ips,
        ResourceClass::Volumes => plan.delete_volumes,
        ResourceClass::Stack => plan.delete_stack,
    }
}

impl DeletionPlan {
    /// Whether the plan's toggle for the class is set.
    pub fn enabled(&self, c: ResourceClass) -> (r: bool)
        ensures
            r == enables(*self, c),
    {
        match c {
            ResourceClass::StorageObjects => self.delete_storage_objects,
            ResourceClass::StorageBucket => self.delete_storage_bucket,
            ResourceClass::LogGroup => self.delete_log_group,
            ResourceClass::StaticIps => self.delete_static_ips,
            ResourceClass::Volumes => self.delete_volumes,
            ResourceClass::Stack => self.delete_stack,
        }
    }
}

/// A recorded identifier is present when it is there and not empty.
pub open spec fn present(id: Option<String>) -> bool {
    id matches Some(s) && s@.len() > 0
}

/// Whether a recorded identifier is present.
pub fn is_present(id: &Option<String>) -> (r: bool)
    ensures
        r == present(*id),
{
    match id {
        Some(s) => !s.as_str().is_empty(),
        None => false,
    }
}

/// The classes among the first `n` of the deletion order that the plan
/// enables and that have a recorded identifier, in that order.
pub open spec fn targets_upto(plan: DeletionPlan, ids: Seq<Option<String>>, n: nat) -> Seq<ResourceClass>
    decreases n,
{
    if n == 0 {
        Seq::empty()
    } else {
        let c = class_of((n - 1) as nat);
        let before = targets_upto(plan, ids, (n - 1) as nat);
        if enables(plan, c) && present(ids[n - 1]) {
            before.push(c)
        } else {
            before
        }
    }
}

/// The classes that a teardown under `plan` deletes.
pub open spec fn teardown_targets(plan: DeletionPlan, ids: Seq<Option<String>>) -> Seq<ResourceClass> {
    targets_upto(plan, ids, CLASS_COUNT as nat)
}

/// The classes that a run started with option `choice` is to delete.
pub open spec fn started_targets(plan: DeletionPlan, ids: Seq<Option<String>>, choice: usize) -> Seq<ResourceClass> {
    if proceeds(plan.skip_confirmation, choice) {
        teardown_targets(plan, ids)
    } else {
        Seq::empty()
    }
}

/// A deletion that failed, named by its class.
#[derive(Clone, Copy, Debug, PartialEq, Eq, Structural)]
pub enum TeardownError {
    PartialDeletion(ResourceClass),
}

/// One error for each of the first `n` attempts that failed, in order.
pub open spec fn failures_upto(targets: Seq<ResourceClass>, outcomes: Seq<bool>, n: nat) -> Seq<TeardownError>
    decreases n,
{
    if n == 0 {
        Seq::empty()
    } else {
        let before = failures_upto(targets, outcomes, (n - 1) as nat);
        if outcomes[n - 1] {
            before
        } else {
            before.push(TeardownError::PartialDeletion(targets[n - 1]))
        }
    }
}

pub open spec fn failures(targets: Seq<ResourceClass>, outcomes: Seq<bool>) -> Seq<TeardownError> {
    failures_upto(targets, outcomes, outcomes.len())
}

/// The class to delete next, once the outcomes so far are known.
pub open spec fn next_target(targets: Seq<ResourceClass>, outcomes: Seq<bool>) -> Option<ResourceClass> {
    if outcomes.len() < targets.len() {
        Some(targets[outcomes.len() as int])
    } else {
        None
    }
}

/// Whether one of the first `n` targets has slot `i`.
pub open spec fn cleared_by(targets: Seq<ResourceClass>, n: nat, i: nat) -> bool
    decreases n,
{
    n > 0 && (rank(targets[n - 1]) == i || cleared_by(targets, (n - 1) as nat, i))
}

/// One teardown run: the classes to delete, and the outcome of each attempt
/// so far (`true` for a deletion that succeeded).
#[derive(Clone, Debug)]
pub struct TeardownRun {
    pub targets: Vec<ResourceClass>,
    pub outcomes: Vec<bool>,
}

impl TeardownRun {
    pub open spec fn wf(&self) -> bool {
        self.outcomes@.len() <= self.targets@.len()
    }

    /// Starts a run. Unless confirmation is waived, nothing is deleted but on
    /// the affirmative option; classes whose identifier is missing are skipped.
    pub fn start(plan: &DeletionPlan, ids: &Vec<Option<String>>, choice: usize) -> (r: TeardownRun)
        requires
            ids@.len() == CLASS_COUNT,
        ensures
            r.wf(),
            r.outcomes@ == Seq::<bool>::empty(),
            r.targets@ == started_targets(*plan, ids@, choice),
    {
        let mut targets: Vec<ResourceClass> = Vec::new();
        if confirmed(plan.skip_confirmation, choice) {
            let mut i: usize = 0;
            while i < CLASS_COUNT
                invariant
                    i <= CLASS_COUNT,
                    ids@.len() == CLASS_COUNT,
                    targets@ == targets_upto(*plan, ids@, i as nat),
                decreases CLASS_COUNT - i,
            {
                let c = ResourceClass::at_position(i);
                if plan.enabled(c) && is_present(&ids[i]) {
                    targets.push(c);
                }
                i = i + 1;
            }
        }
        TeardownRun { targets, outcomes: Vec::new() }
    }

    /// The class whose deletion is to be attempted next, if any is left.
    pub fn next_delete(&self) -> (r: Option<ResourceClass>)
        requires
            self.wf(),
        ensures
            r == next_target(self.targets@, self.outcomes@),
    {
        if self.outcomes.len() < self.targets.len() {
            Some(self.targets[self.outcomes.len()])
        } else {
            None
        }
    }

    /// Records the outcome of the attempt on the next class; a failure does
    /// not stop the run, which moves on to the following class.
    pub fn record(&mut self, succeeded: bool)
        requires
            old(self).wf(),
            old(self).outcomes@.len() < old(self).targets@.len(),
        ensures
            final(self).wf(),
            final(self).targets@ == old(self).targets@,
            final(self).outcomes@ == old(self).outcomes@.push(succeeded),
    {
        self.outcomes.push(succeeded);
    }

    /// The report of the attempts made: an error naming each class whose
    /// deletion failed, or success when none did.
    pub fn report(&self) -> (r: Result<(), Vec<TeardownError>>)
        requires
            self.wf(),
        ensures
            failures(self.targets@, self.outcomes@).len() == 0 ==> r is Ok,
            failures(self.targets@, self.outcomes@).len() > 0 ==> (r matches Err(e) && e@ == failures(
                self.targets@,
                self.outcomes@,
            )),
    {
        let mut errors: Vec<TeardownError> = Vec::new();
        let mut k: usize = 0;
        while k < self.outcomes.len()
            invariant
                self.wf(),
                k <= self.outcomes@.len(),
                errors@ == failures_upto(self.targets@, self.outcomes@, k as nat),
            decreases self.outcomes@.len() - k,
        {
            if !self.outcomes[k] {
                errors.push(TeardownError::PartialDeletion(self.targets[k]));
            }
            k = k + 1;
        }
        if errors.len() == 0 {
            Ok(())
        } else {
            Err(errors)
        }
    }

    /// After a run in which every deletion succeeded, clears the recorded
    /// identifier of each deleted class, so that a later apply creates it
    /// anew. After a run with a failure the identifiers stay as they were.
    pub fn clear_provenance(&self, ids: &mut Vec<Option<String>>)
        requires
            self.wf(),
            old(ids)@.len() == CLASS_COUNT,
        ensures
            final(ids)@.len() == CLASS_COUNT,
            forall|i: int|
                0 <= i < CLASS_COUNT ==> #[trigger] final(ids)@[i] == if failures(self.targets@, self.outcomes@).len() == 0
                    && cleared_by(self.targets@, self.targets@.len(), i as nat) {
                    None
                } else {
                    old(ids)@[i]
                },
    {
        let mut all_ok = true;
        let mut k: usize = 0;
        while k < self.outcomes.len()
            invariant
                k <= self.outcomes@.len(),
                all_ok == (failures_upto(self.targets@, self.outcomes@, k as nat).len() == 0),
            decreases self.outcomes@.len() - k,
        {
            if !self.outcomes[k] {
                all_ok = false;
            }
            k = k + 1;
        }
        if !all_ok {
            return;
        }
        let mut j: usize = 0;
        while j < self.targets.len()
            invariant
                j <= self.targets@.len(),
                ids@.len() == CLASS_COUNT,
                forall|i: int|
                    0 <= i < CLASS_COUNT ==> #[trigger] ids@[i] == if cleared_by(self.targets@, j as nat, i as nat) {
                        None
                    } else {
                        old(ids)@[i]
                    },
            decreases self.targets@.len() - j,
        {
            let p = self.targets[j].position();
            ids.set(p, None);
            j = j + 1;
        }
    }
}

proof fn lemma_targets_upto_members(plan: DeletionPlan, ids: Seq<Option<String>>, n: nat, c: ResourceClass)
    requires
        n <= CLASS_COUNT,
        ids.len() == CLASS_COUNT,
        targets_upto(plan, ids, n).contains(c),
    ensures
        rank(c) < n,
        enables(plan, c),
        present(ids[rank(c) as int]),
    decreases n,
{
    let before = targets_upto(plan, ids, (n - 1) as nat);
    let d = class_of((n - 1) as nat);
    if before.contains(c) {
        lemma_targets_upto_members(plan, ids, (n - 1) as nat, c);
    } else {
        let k = choose|k: int| 0 <= k < targets_upto(plan, ids, n).len() && targets_upto(plan, ids, n)[k] == c;
        assert(k == before.len());
        assert(c == d);
    }
}

proof fn lemma_targets_upto_ordered(plan: DeletionPlan, ids: Seq<Option<String>>, n: nat)
    requires
        n <= CLASS_COUNT,
        ids.len() == CLASS_COUNT,
    ensures
        forall|i: int, j: int|
            0 <= i < j < targets_upto(plan, ids, n).len() ==> rank(#[trigger] targets_upto(plan, ids, n)[i]) < rank(
                #[trigger] targets_upto(plan, ids, n)[j],
            ),
    decreases n,
{
    if n > 0 {
        let m = (n - 1) as nat;
        lemma_targets_upto_ordered(plan, ids, m);
        let before = targets_upto(plan, ids, m);
        let t = targets_upto(plan, ids, n);
        assert(rank(class_of(m)) == m);
        assert forall|i: int, j: int| 0 <= i < j < t.len() implies rank(#[trigger] t[i]) < rank(#[trigger] t[j]) by {
            if j == before.len() {
                assert(before.contains(t[i]));
                lemma_targets_upto_members(plan, ids, m, t[i]);
            }
        }
    }
}

/// Teardown deletes the classes in the fixed dependency-safe order, each at
/// most once: the ranks of the targets strictly increase, so the stack, when
/// it is deleted, comes last.
pub proof fn lemma_teardown_order(plan: DeletionPlan, ids: Seq<Option<String>>)
    requires
        ids.len() == CLASS_COUNT,
    ensures
        forall|i: int, j: int|
            0 <= i < j < teardown_targets(plan, ids).len() ==> rank(#[trigger] teardown_targets(plan, ids)[i]) < rank(
                #[trigger] teardown_targets(plan, ids)[j],
            ),
        teardown_targets(plan, ids).contains(ResourceClass::Stack) ==> teardown_targets(plan, ids).last()
            == ResourceClass::Stack,
{
    lemma_targets_upto_ordered(plan, ids, CLASS_COUNT as nat);
    let t = teardown_targets(plan, ids);
    if t.contains(ResourceClass::Stack) {
        let k = choose|k: int| 0 <= k < t.len() && t[k] == ResourceClass::Stack;
        if k < t.len() - 1 {
            lemma_targets_upto_members(plan, ids, CLASS_COUNT as nat, t[t.len() - 1]);
            assert(rank(t[k]) < rank(t[t.len() - 1]));
        }
    }
}

/// A class without a recorded identifier is never deleted, whatever the
/// plan says; when no enabled class has one, a run deletes nothing and
/// reports success.
pub proof fn lemma_missing_identifier_is_skipped(plan: DeletionPlan, ids: Seq<Option<String>>, c: ResourceClass)
    requires
        ids.len() == CLASS_COUNT,
        !present(ids[rank(c) as int]),
    ensures
        !teardown_targets(plan, ids).contains(c),
        (forall|d: ResourceClass| enables(plan, d) ==> !present(#[trigger] ids[rank(d) as int])) ==> (
            teardown_targets(plan, ids).len() == 0
            && failures(teardown_targets(plan, ids), Seq::empty()).len() == 0
        ),
{
    if teardown_targets(plan, ids).contains(c) {
        lemma_targets_upto_members(plan, ids, CLASS_COUNT as nat, c);
    }
    if forall|d: ResourceClass| enables(plan, d) ==> !present(#[trigger] ids[rank(d) as int]) {
        let t = teardown_targets(plan, ids);
        if t.len() > 0 {
            assert(t.contains(t[0]));
            lemma_targets_upto_members(plan, ids, CLASS_COUNT as nat, t[0]);
        }
    }
}

/// A failed deletion does not stop the run: the next class is attempted
/// whatever the earlier outcomes were. Of three classes where only the second
/// fails, the third is still attempted and the report holds exactly one error,
/// naming the second.
pub proof fn lemma_failure_does_not_stop_teardown(targets: Seq<ResourceClass>, outcomes: Seq<bool>)
    requires
        outcomes.len() < targets.len(),
    ensures
        next_target(targets, outcomes) == Some(targets[outcomes.len() as int]),
        targets.len() == 3 && outcomes == seq![true, false] ==> (
            next_target(targets, outcomes) == Some(targets[2])
            && failures(targets, outcomes.push(true)) == seq![TeardownError::PartialDeletion(targets[1])]
        ),
{
    if targets.len() == 3 && outcomes == seq![true, false] {
        let o = outcomes.push(true);
        assert(o[0] && !o[1] && o[2] && o.len() == 3);
        assert(failures_upto(targets, o, 0) =~= Seq::<TeardownError>::empty());
        assert(failures_upto(targets, o, 1) =~= Seq::<TeardownError>::empty());
        assert(failures_upto(targets, o, 2) =~= seq![TeardownError::PartialDeletion(targets[1])]);
    }
}

/// Without the waiver, a declining choice leaves a run with nothing to delete.
pub proof fn lemma_declined_teardown_deletes_nothing(plan: DeletionPlan, ids: Seq<Option<String>>, choice: usize)
    requires
        !plan.skip_confirmation,
        choice != CONFIRM_OPTION,
    ensures
        next_target(started_targets(plan, ids, choice), Seq::empty()) == None::<ResourceClass>,
{
}

} // verus!
