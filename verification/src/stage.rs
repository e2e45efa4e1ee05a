//! Stages: the units that a schedule runs one after the other.
//!
//! A stage of systems invokes its systems in the order in which they were
//! added, each on the world that the one before it left. A stage is done
//! before the next one starts, so that no system of a later stage sees a
//! world that an earlier stage is still at work on.

use vstd::prelude::*;
use crate::label::StageLabel;
use crate::system::{lemma_reaches_none, lemma_reaches_push, reaches, Access, System};
use crate::world::World;

verus! {

/// Why a schedule could not be changed as asked.
#[derive(Debug, Clone, Copy, PartialEq, Eq, Structural)]
pub enum ScheduleError {
    /// There is no stage of the label next to which a stage was to be put.
    LabelNotFound,
    /// There is no stage of systems of the label to which a system was to be
    /// added.
    StageNotFound,
    /// There is a stage of this label already.
    StageExists,
    /// The label names a startup stage. Systems are added to a startup stage
    /// through the startup schedule.
    StartupStage,
}

/// What a schedule can hold and run.
pub trait Stage: Sized {
    /// The systems that the stage holds.
    type System: System;

    /// Whether the stage is in order. This holds of a new stage and of every
    /// stage that follows from it.
    spec fn wf(&self) -> bool;

    /// The systems that the next run of the stage invokes, in the order in
    /// which it invokes them.
    spec fn pending(&self) -> Seq<Self::System>;

    /// The systems that the stage holds, in the order in which a run that
    /// leaves none out invokes them.
    spec fn systems(&self) -> Seq<Self::System>;

    /// Whether `after` is what a run makes of this stage.
    spec fn ran(&self, after: &Self) -> bool;

    /// Whether a system can be added to the stage itself.
    spec fn takes_systems(&self) -> bool;

    /// Whether a system can be added to a stage of label `label` within this
    /// stage.
    spec fn takes_systems_at(&self, label: StageLabel) -> bool;

    /// Whether `after` is this stage with `system` added to it.
    spec fn added(&self, system: Self::System, after: &Self) -> bool;

    /// Whether `after` is this stage with `system` added to the stage of
    /// label `label` within it.
    spec fn added_at(&self, label: StageLabel, system: Self::System, after: &Self) -> bool;

    /// Runs the stage on `world`: invokes the pending systems one after the
    /// other.
    fn run(&mut self, world: &mut World<<Self::System as System>::Resource>)
        requires
            old(self).wf(),
            old(world).wf(),
        ensures
            final(self).wf(),
            final(world).wf(),
            old(self).ran(final(self)),
            reaches(old(self).pending(), *old(world), *final(world)),
    ;

    /// Whether a system can be added to the stage itself. Only a stage of
    /// systems takes one.
    fn accepts_systems(&self) -> (r: bool)
        requires
            self.wf(),
        ensures
            r == self.takes_systems(),
    ;

    /// Whether a system can be added to a stage of label `label` within this
    /// stage.
    fn accepts_systems_at(&self, label: StageLabel) -> (r: bool)
        requires
            self.wf(),
        ensures
            r == self.takes_systems_at(label),
    ;

    /// Adds `system` to the stage itself, behind the systems that it holds.
    /// Only a stage of systems takes one; any other stage stays as it is.
    fn add_system(&mut self, system: Self::System) -> (r: Result<(), ScheduleError>)
        requires
            old(self).wf(),
        ensures
            final(self).wf(),
            old(self).takes_systems() ==> r is Ok && old(self).added(system, final(self)),
            !old(self).takes_systems() ==> r == Err::<(), ScheduleError>(
                ScheduleError::StageNotFound,
            ) && *final(self) == *old(self),
    ;

    /// Adds `system` to the stage of label `label` within this stage. Where
    /// there is no stage of systems of that label within it, this stage
    /// stays as it is.
    fn add_system_at(&mut self, label: StageLabel, system: Self::System) -> (r: Result<
        (),
        ScheduleError,
    >)
        requires
            old(self).wf(),
        ensures
            final(self).wf(),
            old(self).takes_systems_at(label) ==> r is Ok && old(self).added_at(
                label,
                system,
                final(self),
            ),
            !old(self).takes_systems_at(label) ==> r == Err::<(), ScheduleError>(
                ScheduleError::StageNotFound,
            ) && *final(self) == *old(self),
    ;
}

/// Where the group that begins at place `group` of `starts` ends, among
/// `len` systems: where the next group begins, or behind the last system.
pub open spec fn group_end(starts: Seq<usize>, group: int, len: int) -> int {
    if group + 1 < starts.len() {
        starts[group + 1] as int
    } else {
        len
    }
}

/// Whether the groups that `starts` begins follow each other in the order
/// of `len` systems and leave none out: the first group begins with the
/// first system, and every group begins behind the one before it. There is
/// no group where there is no system.
pub open spec fn groups_in_order(starts: Seq<usize>, len: int) -> bool {
    &&& len == 0 <==> starts.len() == 0
    &&& starts.len() > 0 ==> starts[0] == 0
    &&& forall|g: int| 0 <= g < starts.len() ==> (#[trigger] starts[g]) < len
    &&& forall|g: int, h: int| 0 <= g < h < starts.len() ==> starts[g] < starts[h]
}

/// Whether no two systems of the group at place `group` get in each other's
/// way.
pub open spec fn group_at_peace(accesses: Seq<Access>, starts: Seq<usize>, group: int) -> bool {
    forall|a: int, b: int|
        #![trigger accesses[a], accesses[b]]
        starts[group] <= a < b < group_end(starts, group, accesses.len() as int)
            ==> !accesses[a].conflicts_with(&accesses[b])
}

/// Whether the group before the one at place `group` could not have taken
/// the system that this group begins with: that system gets in the way of
/// one of the group before.
pub open spec fn group_is_due(accesses: Seq<Access>, starts: Seq<usize>, group: int) -> bool {
    exists|a: int|
        starts[group - 1] <= a < starts[group] && (#[trigger] accesses[a]).conflicts_with(
            &accesses[starts[group] as int],
        )
}

/// Whether `starts` divides systems with the accesses `accesses` into the
/// groups that may run side by side: `starts` holds the place of the first
/// system of each group.
///
/// The groups follow each other in the order of the systems and leave none
/// out. No two systems of a group get in each other's way. And no group
/// could have taken the system that the next one begins with.
pub open spec fn grouped(accesses: Seq<Access>, starts: Seq<usize>) -> bool {
    &&& groups_in_order(starts, accesses.len() as int)
    &&& forall|g: int| 0 <= g < starts.len() ==> #[trigger] group_at_peace(accesses, starts, g)
    &&& forall|g: int| 1 <= g < starts.len() ==> #[trigger] group_is_due(accesses, starts, g)
}

/// A system that gets in the way of none of the last group joins it.
proof fn lemma_joins_group(accesses: Seq<Access>, starts: Seq<usize>, access: Access)
    requires
        grouped(accesses, starts),
        starts.len() > 0,
        forall|a: int|
            starts.last() <= a < accesses.len() ==> !(#[trigger] accesses[a]).conflicts_with(
                &access,
            ),
    ensures
        grouped(accesses.push(access), starts),
{
    let longer = accesses.push(access);
    assert forall|g: int| 0 <= g < starts.len() implies #[trigger] group_at_peace(
        longer,
        starts,
        g,
    ) by {
        assert(group_at_peace(accesses, starts, g));
        assert forall|a: int, b: int|
            #![trigger longer[a], longer[b]]
            starts[g] <= a < b < group_end(
                starts,
                g,
                longer.len() as int,
            ) implies !longer[a].conflicts_with(&longer[b]) by {
            if b < accesses.len() {
                assert(!accesses[a].conflicts_with(&accesses[b]));
            } else {
                assert(g == starts.len() - 1);
                assert(!accesses[a].conflicts_with(&access));
            }
        }
    }
    assert forall|g: int| 1 <= g < starts.len() implies #[trigger] group_is_due(
        longer,
        starts,
        g,
    ) by {
        assert(group_is_due(accesses, starts, g));
        let a = choose|a: int|
            starts[g - 1] <= a < starts[g] && (#[trigger] accesses[a]).conflicts_with(
                &accesses[starts[g] as int],
            );
        assert(longer[a].conflicts_with(&longer[starts[g] as int]));
    }
}

/// The first system, and a system that gets in the way of one of the last
/// group, begins a group.
proof fn lemma_opens_group(accesses: Seq<Access>, starts: Seq<usize>, access: Access)
    requires
        grouped(accesses, starts),
        accesses.len() <= usize::MAX,
        starts.len() > 0 ==> exists|a: int|
            starts.last() <= a < accesses.len() && (#[trigger] accesses[a]).conflicts_with(
                &access,
            ),
    ensures
        grouped(accesses.push(access), starts.push(accesses.len() as usize)),
{
    let longer = accesses.push(access);
    let more = starts.push(accesses.len() as usize);
    assert forall|g: int| 0 <= g < more.len() implies #[trigger] group_at_peace(
        longer,
        more,
        g,
    ) by {
        if g < starts.len() {
            assert(group_at_peace(accesses, starts, g));
            assert forall|a: int, b: int|
                #![trigger longer[a], longer[b]]
                more[g] <= a < b < group_end(
                    more,
                    g,
                    longer.len() as int,
                ) implies !longer[a].conflicts_with(&longer[b]) by {
                assert(b < group_end(starts, g, accesses.len() as int));
                assert(!accesses[a].conflicts_with(&accesses[b]));
            }
        }
    }
    assert forall|g: int| 1 <= g < more.len() implies #[trigger] group_is_due(longer, more, g) by {
        if g < starts.len() {
            assert(group_is_due(accesses, starts, g));
            let a = choose|a: int|
                starts[g - 1] <= a < starts[g] && (#[trigger] accesses[a]).conflicts_with(
                    &accesses[starts[g] as int],
                );
            assert(longer[a].conflicts_with(&longer[more[g] as int]));
        } else {
            let a = choose|a: int|
                starts.last() <= a < accesses.len() && (#[trigger] accesses[a]).conflicts_with(
                    &access,
                );
            assert(longer[a].conflicts_with(&longer[more[g] as int]));
        }
    }
}

/// A stage of systems.
///
/// The systems are invoked in the order in which they were added. The stage
/// keeps them in groups of systems that do not get in each other's way, by
/// what each system said it reads and writes when it was added: the systems
/// of a group may run side by side, and a group is done before the next one
/// starts.
#[derive(Debug)]
pub struct SystemStage<S> {
    /// The systems in the order in which they were added.
    systems: Vec<S>,
    /// What each system said it needs of the world when it was added.
    accesses: Vec<Access>,
    /// The place of the first system of each group.
    group_starts: Vec<usize>,
}

impl<S: System> SystemStage<S> {
    /// The systems of the stage, in the order in which they were added.
    pub closed spec fn spec_systems(&self) -> Seq<S> {
        self.systems@
    }

    /// What each system said it reads and writes when it was added.
    pub closed spec fn spec_accesses(&self) -> Seq<Access> {
        self.accesses@
    }

    /// The place of the first system of each group.
    pub closed spec fn spec_group_starts(&self) -> Seq<usize> {
        self.group_starts@
    }

    /// Whether `accesses` holds, for each of `systems`, what that system
    /// says it needs of the world.
    pub open spec fn recorded(systems: Seq<S>, accesses: Seq<Access>) -> bool {
        &&& systems.len() == accesses.len()
        &&& forall|i: int| 0 <= i < systems.len() ==> (#[trigger] systems[i]).declares(accesses[i])
    }

    /// Whether there is a record of what each system needs of the world, and
    /// the systems are in their groups by it.
    pub closed spec fn spec_wf(&self) -> bool {
        &&& Self::recorded(self.systems@, self.accesses@)
        &&& grouped(self.accesses@, self.group_starts@)
    }

    /// In a stage that is in order the record holds for each system what
    /// that system declares, and by the record the systems are in the groups
    /// that may run side by side.
    pub proof fn lemma_grouped(&self)
        requires
            self.spec_wf(),
        ensures
            Self::recorded(self.spec_systems(), self.spec_accesses()),
            grouped(self.spec_accesses(), self.spec_group_starts()),
    {
    }

    /// A stage without systems, whose systems may run side by side where
    /// they do not get in each other's way.
    pub fn parallel() -> (stage: Self)
        ensures
            stage.spec_wf(),
            stage.spec_systems() == Seq::<S>::empty(),
            stage.spec_accesses() == Seq::<Access>::empty(),
            stage.spec_group_starts() == Seq::<usize>::empty(),
    {
        SystemStage { systems: Vec::new(), accesses: Vec::new(), group_starts: Vec::new() }
    }

    /// How many systems the stage holds.
    pub fn len(&self) -> (n: usize)
        ensures
            n == self.spec_systems().len(),
    {
        self.systems.len()
    }

    /// What each system said it reads and writes when it was added.
    pub fn accesses(&self) -> (r: &Vec<Access>)
        ensures
            r@ == self.spec_accesses(),
    {
        &self.accesses
    }

    /// The place of the first system of each group.
    pub fn group_starts(&self) -> (r: &Vec<usize>)
        ensures
            r@ == self.spec_group_starts(),
    {
        &self.group_starts
    }

    /// Whether a system with the access `access` gets in the way of one of
    /// the last group.
    fn conflicts_with_last_group(&self, access: &Access) -> (r: bool)
        requires
            self.spec_wf(),
            self.group_starts@.len() > 0,
        ensures
            r == exists|a: int|
                self.group_starts@.last() <= a < self.accesses@.len() && (
                #[trigger] self.accesses@[a]).conflicts_with(access),
    {
        let mut i: usize = self.group_starts[self.group_starts.len() - 1];
        while i < self.accesses.len()
            invariant
                self.group_starts@.len() > 0,
                self.group_starts@.last() <= i <= self.accesses@.len(),
                forall|a: int|
                    self.group_starts@.last() <= a < i ==> !(#[trigger] self.accesses@[a]).conflicts_with(
                        access,
                    ),
            decreases self.accesses@.len() - i,
        {
            if self.accesses[i].conflicts_with(access) {
                return true;
            }
            i += 1;
        }
        false
    }
}

impl<S: System> Stage for SystemStage<S> {
    type System = S;

    open spec fn wf(&self) -> bool {
        self.spec_wf()
    }

    open spec fn pending(&self) -> Seq<S> {
        self.spec_systems()
    }

    open spec fn systems(&self) -> Seq<S> {
        self.spec_systems()
    }

    open spec fn ran(&self, after: &Self) -> bool {
        *after == *self
    }

    open spec fn takes_systems(&self) -> bool {
        true
    }

    open spec fn takes_systems_at(&self, label: StageLabel) -> bool {
        false
    }

    open spec fn added(&self, system: S, after: &Self) -> bool {
        &&& after.spec_systems() == self.spec_systems().push(system)
        &&& after.spec_accesses().len() == self.spec_accesses().len() + 1
        &&& after.spec_accesses().drop_last() == self.spec_accesses()
        &&& system.declares(after.spec_accesses().last())
    }

    open spec fn added_at(&self, label: StageLabel, system: S, after: &Self) -> bool {
        false
    }

    fn run(&mut self, world: &mut World<S::Resource>) {
        let len = self.systems.len();
        let mut group: usize = 0;
        let mut i: usize = 0;
        proof {
            lemma_reaches_none(self.systems@.take(0), *world, *world);
        }
        while group < self.group_starts.len()
            invariant
                *self == *old(self),
                self.spec_wf(),
                len == self.systems@.len(),
                world.wf(),
                group <= self.group_starts@.len(),
                i == group_end(self.group_starts@, group - 1, len as int),
                group == 0 ==> i == 0,
                reaches(self.systems@.take(i as int), *old(world), *world),
            decreases self.group_starts@.len() - group,
        {
            let end = if group + 1 < self.group_starts.len() {
                self.group_starts[group + 1]
            } else {
                len
            };
            while i < end
                invariant
                    *self == *old(self),
                    len == self.systems@.len(),
                    world.wf(),
                    i <= end <= len,
                    reaches(self.systems@.take(i as int), *old(world), *world),
                decreases end - i,
            {
                let ghost between = *world;
                self.systems[i].invoke(world);
                proof {
                    lemma_reaches_push(
                        self.systems@.take(i as int),
                        self.systems@[i as int],
                        *old(world),
                        between,
                        *world,
                    );
                    assert(self.systems@.take(i as int).push(self.systems@[i as int])
                        =~= self.systems@.take(i + 1));
                }
                i += 1;
            }
            group += 1;
        }
        proof {
            assert(self.systems@.take(i as int) =~= self.systems@);
        }
    }

    fn accepts_systems(&self) -> (r: bool) {
        true
    }

    fn accepts_systems_at(&self, label: StageLabel) -> (r: bool) {
        false
    }

    fn add_system(&mut self, system: S) -> (r: Result<(), ScheduleError>) {
        let access = system.access();
        let at = self.systems.len();
        let opens_group = self.group_starts.len() == 0 || self.conflicts_with_last_group(&access);
        proof {
            if opens_group {
                lemma_opens_group(self.accesses@, self.group_starts@, access);
            } else {
                lemma_joins_group(self.accesses@, self.group_starts@, access);
            }
        }
        if opens_group {
            self.group_starts.push(at);
        }
        self.systems.push(system);
        self.accesses.push(access);
        proof {
            assert(self.accesses@.drop_last() =~= old(self).accesses@);
        }
        Ok(())
    }

    fn add_system_at(&mut self, label: StageLabel, system: S) -> (r: Result<(), ScheduleError>) {
        Err(ScheduleError::StageNotFound)
    }
}

} // verus!
