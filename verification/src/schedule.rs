//! Schedules: stages under their labels, run in a fixed order.
//!
//! A schedule runs its stages in the order in which it holds them, which is
//! the order in which they were added unless a stage was put before or after
//! another. A schedule is itself a stage, so that one schedule can hold
//! another. A schedule that is to run once runs with the first run that
//! reaches it and is passed over from then on.

use vstd::prelude::*;
use crate::label::StageLabel;
use crate::stage::{ScheduleError, Stage, SystemStage};
use crate::system::{
    lemma_reaches_concat,
    lemma_reaches_none,
    lemma_reaches_split,
    reaches,
    System,
};
use crate::world::World;

verus! {

/// The systems that a run of `stages`, one after the other, invokes, in the
/// order in which it invokes them: those of the first stage, then those of
/// the second, and so on.
pub open spec fn pending_of<T: Stage>(stages: Seq<T>) -> Seq<T::System>
    decreases stages.len(),
{
    if stages.len() == 0 {
        Seq::empty()
    } else {
        pending_of(stages.drop_last()) + stages.last().pending()
    }
}

/// The systems that `stages` hold, stage by stage.
pub open spec fn systems_of<T: Stage>(stages: Seq<T>) -> Seq<T::System>
    decreases stages.len(),
{
    if stages.len() == 0 {
        Seq::empty()
    } else {
        systems_of(stages.drop_last()) + stages.last().systems()
    }
}

/// A run of stages invokes the systems of the stages before any one of them
/// first, then all systems of that stage, then those of the stages after it:
/// every system of a stage comes after all systems of the stages before it
/// and before all systems of the stages behind it.
pub proof fn lemma_pending_split<T: Stage>(stages: Seq<T>, at: int)
    requires
        0 <= at < stages.len(),
    ensures
        pending_of(stages) == pending_of(stages.take(at)) + stages[at].pending() + pending_of(
            stages.skip(at + 1),
        ),
    decreases stages.len(),
{
    if at == stages.len() - 1 {
        assert(stages.take(at) =~= stages.drop_last());
        assert(stages.skip(at + 1) =~= Seq::<T>::empty());
        assert(pending_of(stages.skip(at + 1)) =~= Seq::<T::System>::empty());
        assert(pending_of(stages) =~= pending_of(stages.take(at)) + stages[at].pending()
            + pending_of(stages.skip(at + 1)));
    } else {
        lemma_pending_split(stages.drop_last(), at);
        assert(stages.drop_last().take(at) =~= stages.take(at));
        assert(stages.drop_last().skip(at + 1) =~= stages.skip(at + 1).drop_last());
        assert(stages.skip(at + 1).last() == stages.last());
        assert(pending_of(stages) =~= pending_of(stages.take(at)) + stages[at].pending()
            + pending_of(stages.skip(at + 1)));
    }
}

/// A run of stages is done with every stage before it starts the next: the
/// stage at any place starts from a world that the stages before it, and
/// they alone, have made of the world the run started from, and the stages
/// behind it start from the world that it leaves when all its systems are
/// done.
pub proof fn lemma_run_in_stage_order<T: Stage>(
    stages: Seq<T>,
    at: int,
    before: World<<T::System as System>::Resource>,
    after: World<<T::System as System>::Resource>,
) -> (worlds: (World<<T::System as System>::Resource>, World<<T::System as System>::Resource>))
    requires
        0 <= at < stages.len(),
        reaches(pending_of(stages), before, after),
    ensures
        reaches(pending_of(stages.take(at)), before, worlds.0),
        reaches(stages[at].pending(), worlds.0, worlds.1),
        reaches(pending_of(stages.skip(at + 1)), worlds.1, after),
{
    lemma_pending_split(stages, at);
    let leaving = lemma_reaches_split(
        pending_of(stages.take(at)) + stages[at].pending(),
        pending_of(stages.skip(at + 1)),
        before,
        after,
    );
    let entering = lemma_reaches_split(
        pending_of(stages.take(at)),
        stages[at].pending(),
        before,
        leaving,
    );
    (entering, leaving)
}

/// A stage that is put among others runs in its place: behind all systems
/// of the stages before it, and before all systems of the stages that it
/// was put in front of. A stage that is added at the end runs last.
pub proof fn lemma_pending_insert<T: Stage>(stages: Seq<T>, at: int, stage: T)
    requires
        0 <= at <= stages.len(),
    ensures
        pending_of(stages.insert(at, stage)) == pending_of(stages.take(at)) + stage.pending()
            + pending_of(stages.skip(at)),
        pending_of(stages.push(stage)) == pending_of(stages) + stage.pending(),
{
    let longer = stages.insert(at, stage);
    lemma_pending_split(longer, at);
    assert(longer.take(at) =~= stages.take(at));
    assert(longer.skip(at + 1) =~= stages.skip(at));
    assert(stages.push(stage).drop_last() =~= stages);
}

/// Where one stage among others is changed, the systems of the other stages
/// run as before and in the same places, and those of the changed stage run
/// where those of the stage ran that it took the place of.
pub proof fn lemma_pending_update<T: Stage>(stages: Seq<T>, at: int, stage: T)
    requires
        0 <= at < stages.len(),
    ensures
        pending_of(stages.update(at, stage)) == pending_of(stages.take(at)) + stage.pending()
            + pending_of(stages.skip(at + 1)),
{
    let changed = stages.update(at, stage);
    lemma_pending_split(changed, at);
    assert(changed.take(at) =~= stages.take(at));
    assert(changed.skip(at + 1) =~= stages.skip(at + 1));
}

/// A system that is added to a stage of systems of a schedule runs with
/// that stage, behind the systems that the stage held, and the other
/// systems of the schedule run as before: those of the stage and of the
/// stages before it first, and those of the stages behind it after the new
/// system.
pub proof fn lemma_added_system_runs_in_its_stage<S: System>(
    before: Schedule<StageKind<S>>,
    label: StageLabel,
    system: S,
    after: Schedule<StageKind<S>>,
)
    requires
        before.spec_wf(),
        before.takes_systems_at(label),
        before.added_at(label, system, &after),
    ensures
        pending_of(after.stages()) == pending_of(
            before.stages().take(before.labels().index_of(label) + 1),
        ).push(system) + pending_of(before.stages().skip(before.labels().index_of(label) + 1)),
        after.labels() == before.labels(),
{
    let at = before.labels().index_of(label);
    assert(before.labels().contains(label));
    assert(0 <= at < before.stages().len());
    let stage = after.stages()[at];
    lemma_pending_update(before.stages(), at, stage);
    assert(stage.pending() == before.stages()[at].pending().push(system));
    assert(before.stages().take(at + 1).drop_last() =~= before.stages().take(at));
    assert(before.stages().take(at + 1).last() == before.stages()[at]);
    assert(pending_of(before.stages().take(at)) + before.stages()[at].pending().push(system)
        =~= (pending_of(before.stages().take(at)) + before.stages()[at].pending()).push(system));
}

/// The systems that the first `runs` runs of a stage invoke, one run after
/// the other, where `states` holds the stage as it is before each run.
pub open spec fn invoked<T: Stage>(states: Seq<T>, runs: int) -> Seq<T::System>
    decreases runs,
{
    if runs <= 0 {
        Seq::empty()
    } else {
        invoked(states, runs - 1) + states[runs - 1].pending()
    }
}

/// Stages of systems have all their systems pending.
pub proof fn lemma_all_pending<S: System>(stages: Seq<SystemStage<S>>)
    ensures
        pending_of(stages) == systems_of(stages),
    decreases stages.len(),
{
    if stages.len() > 0 {
        lemma_all_pending(stages.drop_last());
    }
}

/// A run leaves the systems of a schedule of stages of systems as they are.
pub proof fn lemma_ran_keeps_systems<S: System>(
    before: Schedule<SystemStage<S>>,
    after: Schedule<SystemStage<S>>,
)
    requires
        before.ran(&after),
    ensures
        after.stages() == before.stages(),
        after.labels() == before.labels(),
        after.runs_once() == before.runs_once(),
        before.has_fired() ==> after.has_fired(),
        !before.is_spent() ==> after.has_fired(),
{
    if !before.is_spent() {
        assert forall|i: int| 0 <= i < before.stages().len() implies after.stages()[i]
            == before.stages()[i] by {
            assert(before.stages()[i].ran(&after.stages()[i]));
        }
        assert(after.stages() =~= before.stages());
    }
}

/// A schedule that is to run once runs once, however often it is reached:
/// the first run invokes every system that the schedule holds, each once and
/// in the order of the stages, and no later run invokes any.
pub proof fn lemma_once_schedule_runs_once<S: System>(
    states: Seq<Schedule<SystemStage<S>>>,
    runs: int,
)
    requires
        1 <= runs < states.len(),
        states[0].runs_once(),
        !states[0].has_fired(),
        forall|i: int| 0 <= i < states.len() - 1 ==> (#[trigger] states[i]).ran(&states[i + 1]),
    ensures
        invoked(states, runs) == states[0].systems(),
        forall|i: int| 1 <= i <= runs ==> (#[trigger] states[i]).pending() == Seq::<S>::empty(),
        forall|i: int| 1 <= i <= runs ==> (#[trigger] states[i]).systems() == states[0].systems(),
    decreases runs,
{
    lemma_all_pending(states[0].stages());
    assert(invoked(states, 1) =~= states[0].pending()) by {
        assert(invoked(states, 0) =~= Seq::<S>::empty());
    }
    assert forall|i: int| 1 <= i <= runs implies (#[trigger] states[i]).pending() == Seq::<
        S,
    >::empty() && states[i].systems() == states[0].systems() by {
        lemma_once_schedule_stays_spent(states, i);
    }
    if runs > 1 {
        lemma_once_schedule_runs_once(states, runs - 1);
        assert(invoked(states, runs) =~= states[0].systems());
    }
}

/// A schedule that is to run once and has run stays that way.
pub proof fn lemma_once_schedule_stays_spent<S: System>(
    states: Seq<Schedule<SystemStage<S>>>,
    at: int,
)
    requires
        1 <= at < states.len(),
        states[0].runs_once(),
        forall|i: int| 0 <= i < states.len() - 1 ==> (#[trigger] states[i]).ran(&states[i + 1]),
    ensures
        states[at].is_spent(),
        states[at].stages() == states[0].stages(),
    decreases at,
{
    assert(states[at - 1].ran(&states[at]));
    lemma_ran_keeps_systems(states[at - 1], states[at]);
    if at > 1 {
        lemma_once_schedule_stays_spent(states, at - 1);
    }
}

/// Stages under their labels, run in a fixed order.
#[derive(Debug)]
pub struct Schedule<T> {
    /// The labels of the stages, in the order in which the stages run.
    stage_order: Vec<StageLabel>,
    /// The stage of each label, in the order of `stage_order`.
    stages: Vec<T>,
    /// Whether the schedule is to run once.
    run_once: bool,
    /// Whether the schedule has run.
    fired: bool,
}

impl<T: Stage> Schedule<T> {
    /// The labels of the stages, in the order in which the stages run.
    pub closed spec fn labels(&self) -> Seq<StageLabel> {
        self.stage_order@
    }

    /// The stages, in the order in which they run.
    pub closed spec fn stages(&self) -> Seq<T> {
        self.stages@
    }

    /// Whether the schedule is to run once.
    pub closed spec fn runs_once(&self) -> bool {
        self.run_once
    }

    /// Whether the schedule has run.
    pub closed spec fn has_fired(&self) -> bool {
        self.fired
    }

    /// Whether the next run passes the schedule over: it was to run once,
    /// and has.
    pub open spec fn is_spent(&self) -> bool {
        self.runs_once() && self.has_fired()
    }

    /// Whether the schedule is in order: every stage has a label of its own,
    /// and every stage is in order.
    pub open spec fn spec_wf(&self) -> bool {
        &&& self.labels().len() == self.stages().len()
        &&& self.labels().no_duplicates()
        &&& forall|i: int| 0 <= i < self.stages().len() ==> (#[trigger] self.stages()[i]).wf()
    }

    /// Whether the schedule has a stage of label `label`.
    pub open spec fn has_stage(&self, label: StageLabel) -> bool {
        self.labels().contains(label)
    }

    /// A schedule without stages that runs whenever it is asked to.
    pub fn new() -> (schedule: Self)
        ensures
            schedule.spec_wf(),
            schedule.labels() == Seq::<StageLabel>::empty(),
            schedule.stages() == Seq::<T>::empty(),
            !schedule.runs_once(),
            !schedule.has_fired(),
    {
        Schedule { stage_order: Vec::new(), stages: Vec::new(), run_once: false, fired: false }
    }

    /// A schedule without stages that runs once: with the first run that
    /// reaches it.
    pub fn once() -> (schedule: Self)
        ensures
            schedule.spec_wf(),
            schedule.labels() == Seq::<StageLabel>::empty(),
            schedule.stages() == Seq::<T>::empty(),
            schedule.runs_once(),
            !schedule.has_fired(),
    {
        Schedule { stage_order: Vec::new(), stages: Vec::new(), run_once: true, fired: false }
    }

    /// How many stages the schedule holds.
    pub fn len(&self) -> (n: usize)
        ensures
            n == self.stages().len(),
    {
        self.stages.len()
    }

    /// Where the stage of label `label` stands among the stages.
    pub fn position(&self, label: StageLabel) -> (at: Option<usize>)
        ensures
            match at {
                Some(i) => i < self.labels().len() && self.labels()[i as int] == label,
                None => !self.has_stage(label),
            },
            self.labels().no_duplicates() ==> (at matches Some(i) ==> self.labels().index_of(label)
                == i),
    {
        let mut i: usize = 0;
        while i < self.stage_order.len()
            invariant
                i <= self.stage_order@.len(),
                forall|j: int| 0 <= j < i ==> self.stage_order@[j] != label,
            decreases self.stage_order@.len() - i,
        {
            if self.stage_order[i] == label {
                proof {
                    assert(self.stage_order@.contains(label));
                    let found = self.stage_order@.index_of(label);
                    assert(self.stage_order@[found] == label);
                }
                return Some(i);
            }
            i += 1;
        }
        None
    }

    /// The labels of the stages, in the order in which the stages run.
    pub fn stage_order(&self) -> (r: &Vec<StageLabel>)
        ensures
            r@ == self.labels(),
    {
        &self.stage_order
    }

    /// Whether the schedule is to run once.
    pub fn is_run_once(&self) -> (r: bool)
        ensures
            r == self.runs_once(),
    {
        self.run_once
    }

    /// Whether the schedule has run.
    pub fn fired(&self) -> (r: bool)
        ensures
            r == self.has_fired(),
    {
        self.fired
    }

    /// The stage of label `label`, if there is one.
    pub fn stage(&self, label: StageLabel) -> (r: Option<&T>)
        requires
            self.spec_wf(),
        ensures
            match r {
                Some(stage) => self.has_stage(label) && *stage == self.stages()[self.labels().index_of(
                    label,
                )],
                None => !self.has_stage(label),
            },
    {
        match self.position(label) {
            Some(at) => Some(&self.stages[at]),
            None => None,
        }
    }

    /// Whether the schedule has a stage of label `label`.
    pub fn contains_stage(&self, label: StageLabel) -> (r: bool)
        ensures
            r == self.has_stage(label),
    {
        self.position(label).is_some()
    }

    /// Puts `stage` under `label` at place `at`, moving the stages from
    /// there on one place back.
    fn insert_stage(&mut self, at: usize, label: StageLabel, stage: T)
        requires
            old(self).spec_wf(),
            stage.wf(),
            at <= old(self).labels().len(),
            !old(self).has_stage(label),
        ensures
            final(self).spec_wf(),
            final(self).labels() == old(self).labels().insert(at as int, label),
            final(self).stages() == old(self).stages().insert(at as int, stage),
            final(self).runs_once() == old(self).runs_once(),
            final(self).has_fired() == old(self).has_fired(),
    {
        self.stage_order.insert(at, label);
        self.stages.insert(at, stage);
        proof {
            assert forall|a: int, b: int|
                0 <= a < self.stage_order@.len() && 0 <= b < self.stage_order@.len() && a
                    != b implies self.stage_order@[a] != self.stage_order@[b] by {
                let before_a = if a < at { a } else { a - 1 };
                let before_b = if b < at { b } else { b - 1 };
                if a != at {
                    assert(old(self).stage_order@.contains(old(self).stage_order@[before_a]));
                }
                if b != at {
                    assert(old(self).stage_order@.contains(old(self).stage_order@[before_b]));
                }
            }
            assert forall|i: int| 0 <= i < self.stages@.len() implies (#[trigger] self.stages@[i]).wf() by {
                if i < at {
                    assert(old(self).stages@[i].wf());
                } else if i > at {
                    assert(old(self).stages@[i - 1].wf());
                }
            }
        }
    }

    /// Adds `stage` under `label` behind the stages that the schedule holds.
    /// There must be no stage of that label yet.
    pub fn add_stage(&mut self, label: StageLabel, stage: T) -> (r: Result<(), ScheduleError>)
        requires
            old(self).spec_wf(),
            stage.wf(),
        ensures
            final(self).spec_wf(),
            final(self).runs_once() == old(self).runs_once(),
            final(self).has_fired() == old(self).has_fired(),
            old(self).has_stage(label) ==> r == Err::<(), ScheduleError>(
                ScheduleError::StageExists,
            ) && final(self).labels() == old(self).labels() && final(self).stages() == old(
                self,
            ).stages(),
            !old(self).has_stage(label) ==> r is Ok && final(self).labels() == old(
                self,
            ).labels().push(label) && final(self).stages() == old(self).stages().push(stage),
    {
        if self.contains_stage(label) {
            return Err(ScheduleError::StageExists);
        }
        let at = self.stage_order.len();
        self.insert_stage(at, label, stage);
        proof {
            assert(old(self).labels().insert(at as int, label) =~= old(self).labels().push(label));
            assert(old(self).stages().insert(at as int, stage) =~= old(self).stages().push(stage));
        }
        Ok(())
    }

    /// Adds `stage` under `label` right behind the stage of label `target`.
    /// There must be a stage of label `target`, and none of label `label`
    /// yet.
    pub fn add_stage_after(&mut self, target: StageLabel, label: StageLabel, stage: T) -> (r:
        Result<(), ScheduleError>)
        requires
            old(self).spec_wf(),
            stage.wf(),
        ensures
            final(self).spec_wf(),
            final(self).runs_once() == old(self).runs_once(),
            final(self).has_fired() == old(self).has_fired(),
            r == old(self).may_add_beside(target, label),
            r is Err ==> final(self).labels() == old(self).labels() && final(self).stages() == old(
                self,
            ).stages(),
            r is Ok ==> final(self).labels() == old(self).labels().insert(
                old(self).labels().index_of(target) + 1,
                label,
            ) && final(self).stages() == old(self).stages().insert(
                old(self).labels().index_of(target) + 1,
                stage,
            ),
    {
        let at = match self.position(target) {
            Some(at) => at,
            None => { return Err(ScheduleError::LabelNotFound); },
        };
        if self.contains_stage(label) {
            return Err(ScheduleError::StageExists);
        }
        let behind = if at < self.stage_order.len() {
            at + 1
        } else {
            at
        };
        self.insert_stage(behind, label, stage);
        Ok(())
    }

    /// Adds `stage` under `label` right before the stage of label `target`.
    /// There must be a stage of label `target`, and none of label `label`
    /// yet.
    pub fn add_stage_before(&mut self, target: StageLabel, label: StageLabel, stage: T) -> (r:
        Result<(), ScheduleError>)
        requires
            old(self).spec_wf(),
            stage.wf(),
        ensures
            final(self).spec_wf(),
            final(self).runs_once() == old(self).runs_once(),
            final(self).has_fired() == old(self).has_fired(),
            r == old(self).may_add_beside(target, label),
            r is Err ==> final(self).labels() == old(self).labels() && final(self).stages() == old(
                self,
            ).stages(),
            r is Ok ==> final(self).labels() == old(self).labels().insert(
                old(self).labels().index_of(target),
                label,
            ) && final(self).stages() == old(self).stages().insert(
                old(self).labels().index_of(target),
                stage,
            ),
    {
        let at = match self.position(target) {
            Some(at) => at,
            None => { return Err(ScheduleError::LabelNotFound); },
        };
        if self.contains_stage(label) {
            return Err(ScheduleError::StageExists);
        }
        self.insert_stage(at, label, stage);
        Ok(())
    }

    /// Whether a stage of label `label` can be put next to the stage of
    /// label `target`: there must be a stage of label `target`, and none of
    /// label `label`.
    pub open spec fn may_add_beside(&self, target: StageLabel, label: StageLabel) -> Result<
        (),
        ScheduleError,
    > {
        if !self.has_stage(target) {
            Err(ScheduleError::LabelNotFound)
        } else if self.has_stage(label) {
            Err(ScheduleError::StageExists)
        } else {
            Ok(())
        }
    }
}

impl<T: Stage> Schedule<T> {
    /// Whether `after` is this schedule with the stage at place `at`
    /// replaced by `stage`.
    pub open spec fn replaced(&self, at: int, stage: T, after: &Self) -> bool {
        &&& after.labels() == self.labels()
        &&& after.stages() == self.stages().update(at, stage)
        &&& after.runs_once() == self.runs_once()
        &&& after.has_fired() == self.has_fired()
    }

    /// Adds `system` to the stage of label `label`, behind the systems that
    /// the stage holds. There must be a stage of that label, and it must be
    /// a stage of systems.
    pub fn add_system_to_stage(&mut self, label: StageLabel, system: T::System) -> (r: Result<
        (),
        ScheduleError,
    >)
        requires
            old(self).spec_wf(),
        ensures
            final(self).spec_wf(),
            old(self).takes_systems_at(label) ==> r is Ok && old(self).added_at(
                label,
                system,
                final(self),
            ),
            !old(self).takes_systems_at(label) ==> r == Err::<(), ScheduleError>(
                ScheduleError::StageNotFound,
            ) && *final(self) == *old(self),
    {
        self.add_system_at(label, system)
    }

    /// Adds `system` to the stage of label `inner` within the stage of label
    /// `outer`. There must be a stage of label `outer`, and it must hold a
    /// stage of systems of label `inner`.
    pub fn add_system_within(&mut self, outer: StageLabel, inner: StageLabel, system: T::System) -> (r:
        Result<(), ScheduleError>)
        requires
            old(self).spec_wf(),
        ensures
            final(self).spec_wf(),
            old(self).takes_systems_within(outer, inner) ==> r is Ok && old(self).added_within(
                outer,
                inner,
                system,
                final(self),
            ),
            !old(self).takes_systems_within(outer, inner) ==> r == Err::<(), ScheduleError>(
                ScheduleError::StageNotFound,
            ) && *final(self) == *old(self),
    {
        let at = match self.position(outer) {
            Some(at) => at,
            None => { return Err(ScheduleError::StageNotFound); },
        };
        if !self.stages[at].accepts_systems_at(inner) {
            return Err(ScheduleError::StageNotFound);
        }
        let r = self.stages[at].add_system_at(inner, system);
        proof {
            assert forall|i: int| 0 <= i < self.stages@.len() implies (#[trigger] self.stages@[i]).wf() by {
                if i != at {
                    assert(old(self).stages@[i].wf());
                }
            }
        }
        r
    }

    /// Whether `after` is this schedule with `system` added to the stage of
    /// label `inner` within the stage of label `outer`.
    pub open spec fn added_within(
        &self,
        outer: StageLabel,
        inner: StageLabel,
        system: T::System,
        after: &Self,
    ) -> bool {
        let at = self.labels().index_of(outer);
        &&& self.replaced(at, after.stages()[at], after)
        &&& self.stages()[at].added_at(inner, system, &after.stages()[at])
    }

    /// Whether a system can be added to a stage of label `inner` within the
    /// stage of label `outer`.
    pub open spec fn takes_systems_within(&self, outer: StageLabel, inner: StageLabel) -> bool {
        self.has_stage(outer) && self.stages()[self.labels().index_of(outer)].takes_systems_at(
            inner,
        )
    }
}

impl<T: Stage> Stage for Schedule<T> {
    type System = T::System;

    open spec fn wf(&self) -> bool {
        self.spec_wf()
    }

    open spec fn pending(&self) -> Seq<T::System> {
        if self.is_spent() {
            Seq::empty()
        } else {
            pending_of(self.stages())
        }
    }

    open spec fn systems(&self) -> Seq<T::System> {
        systems_of(self.stages())
    }

    open spec fn ran(&self, after: &Self) -> bool {
        if self.is_spent() {
            *after == *self
        } else {
            &&& after.labels() == self.labels()
            &&& after.runs_once() == self.runs_once()
            &&& after.has_fired()
            &&& after.stages().len() == self.stages().len()
            &&& forall|i: int|
                0 <= i < self.stages().len() ==> (#[trigger] self.stages()[i]).ran(
                    &after.stages()[i],
                )
        }
    }

    open spec fn takes_systems(&self) -> bool {
        false
    }

    open spec fn takes_systems_at(&self, label: StageLabel) -> bool {
        self.has_stage(label) && self.stages()[self.labels().index_of(label)].takes_systems()
    }

    open spec fn added(&self, system: T::System, after: &Self) -> bool {
        false
    }

    open spec fn added_at(&self, label: StageLabel, system: T::System, after: &Self) -> bool {
        let at = self.labels().index_of(label);
        &&& self.replaced(at, after.stages()[at], after)
        &&& self.stages()[at].added(system, &after.stages()[at])
    }

    fn run(&mut self, world: &mut World<<T::System as System>::Resource>) {
        if self.run_once && self.fired {
            proof {
                lemma_reaches_none(self.pending(), *world, *world);
            }
            return ;
        }
        let mut i: usize = 0;
        proof {
            lemma_reaches_none(pending_of(self.stages@.take(0)), *world, *world);
        }
        while i < self.stages.len()
            invariant
                i <= self.stages@.len(),
                world.wf(),
                self.stage_order == old(self).stage_order,
                self.run_once == old(self).run_once,
                self.stages@.len() == old(self).stages@.len(),
                forall|j: int| 0 <= j < self.stages@.len() ==> (#[trigger] self.stages@[j]).wf(),
                forall|j: int|
                    0 <= j < i ==> (#[trigger] old(self).stages@[j]).ran(&self.stages@[j]),
                forall|j: int|
                    i <= j < self.stages@.len() ==> self.stages@[j] == old(self).stages@[j],
                reaches(pending_of(old(self).stages@.take(i as int)), *old(world), *world),
            decreases self.stages@.len() - i,
        {
            let ghost between = *world;
            let ghost stages_before = self.stages@;
            self.stages[i].run(world);
            proof {
                assert(self.stages@ == stages_before.update(i as int, self.stages@[i as int]));
                assert(old(self).stages@.take(i + 1).drop_last() =~= old(self).stages@.take(
                    i as int,
                ));
                lemma_reaches_concat(
                    pending_of(old(self).stages@.take(i as int)),
                    old(self).stages@[i as int].pending(),
                    *old(world),
                    between,
                    *world,
                );
                assert forall|j: int| 0 <= j < self.stages@.len() implies (
                #[trigger] self.stages@[j]).wf() by {
                    if j != i {
                        assert(stages_before[j].wf());
                    }
                }
            }
            i += 1;
        }
        self.fired = true;
        proof {
            assert(old(self).stages@.take(i as int) =~= old(self).stages@);
        }
    }

    fn accepts_systems(&self) -> (r: bool) {
        false
    }

    fn accepts_systems_at(&self, label: StageLabel) -> (r: bool) {
        match self.position(label) {
            Some(at) => self.stages[at].accepts_systems(),
            None => false,
        }
    }

    fn add_system(&mut self, system: T::System) -> (r: Result<(), ScheduleError>) {
        Err(ScheduleError::StageNotFound)
    }

    fn add_system_at(&mut self, label: StageLabel, system: T::System) -> (r: Result<
        (),
        ScheduleError,
    >) {
        let at = match self.position(label) {
            Some(at) => at,
            None => { return Err(ScheduleError::StageNotFound); },
        };
        if !self.stages[at].accepts_systems() {
            return Err(ScheduleError::StageNotFound);
        }
        let r = self.stages[at].add_system(system);
        proof {
            assert forall|i: int| 0 <= i < self.stages@.len() implies (#[trigger] self.stages@[i]).wf() by {
                if i != at {
                    assert(old(self).stages@[i].wf());
                }
            }
        }
        r
    }
}

/// What the schedule of an application holds under a label: a stage of
/// systems, or a schedule of such stages.
#[derive(Debug)]
pub enum StageKind<S> {
    /// A stage of systems.
    Systems(SystemStage<S>),
    /// A schedule of stages of systems.
    Nested(Schedule<SystemStage<S>>),
}

impl<S: System> Stage for StageKind<S> {
    type System = S;

    open spec fn wf(&self) -> bool {
        match self {
            StageKind::Systems(stage) => stage.wf(),
            StageKind::Nested(schedule) => schedule.wf(),
        }
    }

    open spec fn pending(&self) -> Seq<S> {
        match self {
            StageKind::Systems(stage) => stage.pending(),
            StageKind::Nested(schedule) => schedule.pending(),
        }
    }

    open spec fn systems(&self) -> Seq<S> {
        match self {
            StageKind::Systems(stage) => stage.systems(),
            StageKind::Nested(schedule) => schedule.systems(),
        }
    }

    open spec fn ran(&self, after: &Self) -> bool {
        match (self, after) {
            (StageKind::Systems(stage), StageKind::Systems(stage_after)) => stage.ran(stage_after),
            (StageKind::Nested(schedule), StageKind::Nested(schedule_after)) => schedule.ran(
                schedule_after,
            ),
            _ => false,
        }
    }

    open spec fn takes_systems(&self) -> bool {
        *self is Systems
    }

    open spec fn takes_systems_at(&self, label: StageLabel) -> bool {
        match self {
            StageKind::Systems(_) => false,
            StageKind::Nested(schedule) => schedule.takes_systems_at(label),
        }
    }

    open spec fn added(&self, system: S, after: &Self) -> bool {
        match (self, after) {
            (StageKind::Systems(stage), StageKind::Systems(stage_after)) => stage.added(
                system,
                stage_after,
            ),
            _ => false,
        }
    }

    open spec fn added_at(&self, label: StageLabel, system: S, after: &Self) -> bool {
        match (self, after) {
            (StageKind::Nested(schedule), StageKind::Nested(schedule_after)) => schedule.added_at(
                label,
                system,
                schedule_after,
            ),
            _ => false,
        }
    }

    fn run(&mut self, world: &mut World<S::Resource>) {
        match self {
            StageKind::Systems(stage) => stage.run(world),
            StageKind::Nested(schedule) => schedule.run(world),
        }
    }

    fn accepts_systems(&self) -> (r: bool) {
        matches!(self, StageKind::Systems(_))
    }

    fn accepts_systems_at(&self, label: StageLabel) -> (r: bool) {
        match self {
            StageKind::Systems(_) => false,
            StageKind::Nested(schedule) => schedule.accepts_systems_at(label),
        }
    }

    fn add_system(&mut self, system: S) -> (r: Result<(), ScheduleError>) {
        match self {
            StageKind::Systems(stage) => stage.add_system(system),
            StageKind::Nested(_) => Err(ScheduleError::StageNotFound),
        }
    }

    fn add_system_at(&mut self, label: StageLabel, system: S) -> (r: Result<(), ScheduleError>) {
        match self {
            StageKind::Systems(_) => Err(ScheduleError::StageNotFound),
            StageKind::Nested(schedule) => schedule.add_system_at(label, system),
        }
    }
}

/// The stage at place `at` of a schedule, as it is before each run of the
/// schedule, where `states` holds the schedule as it is before each run.
pub open spec fn stage_states<T: Stage>(states: Seq<Schedule<T>>, at: int) -> Seq<T> {
    Seq::new(states.len(), |i: int| states[i].stages()[at])
}

/// The startup systems of an application run with its first tick and with
/// no other: across any number of runs of a schedule that runs every time,
/// a schedule which it holds and which is to run once has each of its
/// systems invoked once, with the first run.
pub proof fn lemma_startup_runs_once<S: System>(
    states: Seq<Schedule<StageKind<S>>>,
    at: int,
    runs: int,
)
    requires
        1 <= runs < states.len(),
        !states[0].runs_once(),
        forall|i: int| 0 <= i < states.len() - 1 ==> (#[trigger] states[i]).ran(&states[i + 1]),
        0 <= at < states[0].stages().len(),
        states[0].stages()[at] matches StageKind::Nested(startup) && startup.runs_once()
            && !startup.has_fired(),
    ensures
        invoked(stage_states(states, at), runs) == states[0].stages()[at].systems(),
        forall|i: int|
            1 <= i <= runs ==> (#[trigger] states[i]).stages()[at].pending() == Seq::<S>::empty(),
{
    lemma_nested_states(states, at, states.len() - 1);
    let nested = Seq::new(states.len(), |i: int| states[i].stages()[at]->Nested_0);
    assert forall|i: int| 0 <= i < nested.len() - 1 implies (#[trigger] nested[i]).ran(
        &nested[i + 1],
    ) by {
        lemma_nested_states(states, at, i);
        lemma_nested_states(states, at, i + 1);
        assert(states[i].ran(&states[i + 1]));
        assert(states[i].stages()[at].ran(&states[i + 1].stages()[at]));
    }
    lemma_once_schedule_runs_once(nested, runs);
    lemma_invoked_nested(states, at, runs);
    assert forall|i: int| 1 <= i <= runs implies (#[trigger] states[i]).stages()[at].pending()
        == Seq::<S>::empty() by {
        lemma_nested_states(states, at, i);
        assert(nested[i].pending() == Seq::<S>::empty());
    }
}

/// A run leaves every stage of a schedule that runs every time where it is
/// and of the kind it is.
proof fn lemma_nested_states<S: System>(states: Seq<Schedule<StageKind<S>>>, at: int, upto: int)
    requires
        0 <= upto < states.len(),
        !states[0].runs_once(),
        forall|i: int| 0 <= i < states.len() - 1 ==> (#[trigger] states[i]).ran(&states[i + 1]),
        0 <= at < states[0].stages().len(),
        states[0].stages()[at] is Nested,
    ensures
        !states[upto].runs_once(),
        at < states[upto].stages().len(),
        states[upto].stages()[at] is Nested,
    decreases upto,
{
    if upto > 0 {
        lemma_nested_states(states, at, upto - 1);
        assert(states[upto - 1].ran(&states[upto]));
        assert(states[upto - 1].stages()[at].ran(&states[upto].stages()[at]));
    }
}

/// What the runs of a schedule invoke of a schedule that it holds is what
/// the runs of that schedule invoke.
proof fn lemma_invoked_nested<S: System>(states: Seq<Schedule<StageKind<S>>>, at: int, runs: int)
    requires
        0 <= runs < states.len(),
        !states[0].runs_once(),
        forall|i: int| 0 <= i < states.len() - 1 ==> (#[trigger] states[i]).ran(&states[i + 1]),
        0 <= at < states[0].stages().len(),
        states[0].stages()[at] is Nested,
    ensures
        invoked(stage_states(states, at), runs) == invoked(
            Seq::new(states.len(), |i: int| states[i].stages()[at]->Nested_0),
            runs,
        ),
    decreases runs,
{
    if runs > 0 {
        lemma_invoked_nested(states, at, runs - 1);
        lemma_nested_states(states, at, runs - 1);
    }
}

} // verus!
