//! The application: one world, one schedule over it, and the runner that
//! takes over once the application is run.
//!
//! Plugins and the program itself set an application up through the methods
//! here: they add stages and systems, insert resources, and may replace the
//! runner. The default stages run in a fixed order with every tick: first,
//! then once only the startup schedule, then pre-update, update, post-update
//! and last.

use vstd::prelude::*;
use crate::label::{CoreStage, StageLabel, StartupSchedule, StartupStage};
use crate::schedule::{Schedule, StageKind};
use crate::stage::{ScheduleError, Stage, SystemStage};
use crate::system::{reaches, Access, System};
use crate::world::{ResourceKey, World};

verus! {

/// A system in the schedule of an application: one of the application's
/// own, or one that the application core provides.
pub enum AppSystem<S> {
    /// Forgets which resources have changed. This is the bookkeeping at the
    /// end of a tick, for which the system needs the world to itself.
    ClearTrackers,
    /// A system of the application's own.
    User(S),
}

impl<S: System> System for AppSystem<S> {
    type Resource = S::Resource;

    open spec fn step(&self, before: World<S::Resource>, after: World<S::Resource>) -> bool {
        match self {
            AppSystem::ClearTrackers => {
                &&& after.resources() == before.resources()
                &&& after.non_send() == before.non_send()
                &&& after.changed() == Set::<ResourceKey>::empty()
            },
            AppSystem::User(system) => system.step(before, after),
        }
    }

    open spec fn declares(&self, access: Access) -> bool {
        match self {
            AppSystem::ClearTrackers => {
                &&& access.reads@ == Seq::<ResourceKey>::empty()
                &&& access.writes@ == Seq::<ResourceKey>::empty()
                &&& access.exclusive
            },
            AppSystem::User(system) => system.declares(access),
        }
    }

    fn access(&self) -> (access: Access) {
        match self {
            AppSystem::ClearTrackers => Access {
                reads: Vec::new(),
                writes: Vec::new(),
                exclusive: true,
            },
            AppSystem::User(system) => system.access(),
        }
    }

    fn invoke(&self, world: &mut World<S::Resource>) {
        match self {
            AppSystem::ClearTrackers => world.clear_trackers(),
            AppSystem::User(system) => system.invoke(world),
        }
    }
}

/// An application: a world, a schedule over it, and a runner.
///
/// `S` is the type of the application's systems, and `F` that of its runner:
/// what is handed the application once it is run. An application without a
/// runner is run by [`run_once`].
pub struct App<S: System, F> {
    /// The world of the application. The systems of the schedule work on it.
    pub world: World<S::Resource>,
    /// The runner that was set last, if one was set.
    pub runner: Option<F>,
    /// The schedule of the application.
    pub schedule: Schedule<StageKind<AppSystem<S>>>,
}

impl<S: System, F> App<S, F> {
    /// Whether world and schedule are in order. This holds of a new
    /// application and of every application that follows from it.
    pub open spec fn wf(&self) -> bool {
        self.world.wf() && self.schedule.wf()
    }

    /// An application with nothing in it: no resource, no stage, no runner.
    pub fn empty() -> (app: Self)
        ensures
            app.wf(),
            app.world.resources() == Map::<ResourceKey, S::Resource>::empty(),
            app.world.changed() == Set::<ResourceKey>::empty(),
            app.world.non_send() == Set::<ResourceKey>::empty(),
            app.schedule.labels() == Seq::<StageLabel>::empty(),
            app.schedule.stages() == Seq::<StageKind<AppSystem<S>>>::empty(),
            !app.schedule.runs_once(),
            !app.schedule.has_fired(),
            app.runner is None,
    {
        App { world: World::new(), runner: None, schedule: Schedule::new() }
    }

    /// Sets the runner: what is handed the application once it is run. Only
    /// the runner that was set last is kept; the one before it is dropped
    /// without a word.
    pub fn set_runner(&mut self, run_fn: F) -> (app: &mut Self)
        ensures
            app.runner == Some(run_fn),
            app.world == old(self).world,
            app.schedule == old(self).schedule,
            *final(self) == *final(app),
    {
        self.runner = Some(run_fn);
        self
    }

    /// Inserts `resource` under `key`, in place of the resource that was
    /// there, if there was one.
    pub fn insert_resource(&mut self, key: ResourceKey, resource: S::Resource) -> (app: &mut Self)
        requires
            old(self).wf(),
        ensures
            app.wf(),
            app.world.resources() == old(self).world.resources().insert(key, resource),
            app.world.changed() == old(self).world.changed().insert(key),
            app.world.non_send() == old(self).world.non_send().remove(key),
            app.schedule == old(self).schedule,
            app.runner == old(self).runner,
            *final(self) == *final(app),
    {
        self.world.insert_resource(key, resource);
        self
    }

    /// Adds `stage` under `label` behind the stages of the schedule. There
    /// must be no stage of that label yet.
    pub fn add_stage(&mut self, label: StageLabel, stage: StageKind<AppSystem<S>>) -> (r: Result<
        &mut Self,
        ScheduleError,
    >)
        requires
            old(self).wf(),
            stage.wf(),
        ensures
            match r {
                Ok(app) => {
                    &&& !old(self).schedule.has_stage(label)
                    &&& app.wf()
                    &&& app.schedule.labels() == old(self).schedule.labels().push(label)
                    &&& app.schedule.stages() == old(self).schedule.stages().push(stage)
                    &&& app.schedule.runs_once() == old(self).schedule.runs_once()
                    &&& app.schedule.has_fired() == old(self).schedule.has_fired()
                    &&& app.world == old(self).world
                    &&& app.runner == old(self).runner
                    &&& *final(self) == *final(app)
                },
                Err(e) => {
                    &&& old(self).schedule.has_stage(label)
                    &&& e == ScheduleError::StageExists
                    &&& final(self).wf()
                    &&& final(self).schedule.labels() == old(self).schedule.labels()
                    &&& final(self).schedule.stages() == old(self).schedule.stages()
                    &&& final(self).world == old(self).world
                    &&& final(self).runner == old(self).runner
                },
            },
    {
        match self.schedule.add_stage(label, stage) {
            Ok(_) => Ok(self),
            Err(e) => Err(e),
        }
    }

    /// Inserts `resource` under `key`, in place of the resource that was
    /// there, if there was one, as a resource that is bound to the thread
    /// that inserts it.
    pub fn insert_non_send_resource(&mut self, key: ResourceKey, resource: S::Resource) -> (app:
        &mut Self)
        requires
            old(self).wf(),
        ensures
            app.wf(),
            app.world.resources() == old(self).world.resources().insert(key, resource),
            app.world.changed() == old(self).world.changed().insert(key),
            app.world.non_send() == old(self).world.non_send().insert(key),
            app.schedule == old(self).schedule,
            app.runner == old(self).runner,
            *final(self) == *final(app),
    {
        self.world.insert_non_send_resource(key, resource);
        self
    }

    /// Makes sure that there is a resource under `key`. Where there is none,
    /// `make` is asked for one, with the world to look at, and what it makes
    /// is inserted. Where there is one, nothing happens.
    pub fn init_resource<M: FnOnce(&World<S::Resource>) -> S::Resource>(
        &mut self,
        key: ResourceKey,
        make: M,
    ) -> (app: &mut Self)
        requires
            old(self).wf(),
            !old(self).world.has(key) ==> call_requires(make, (&old(self).world,)),
        ensures
            app.wf(),
            old(self).world.has(key) ==> app.world == old(self).world,
            !old(self).world.has(key) ==> {
                &&& app.world.has(key)
                &&& call_ensures(make, (&old(self).world,), app.world.resources()[key])
                &&& app.world.resources() == old(self).world.resources().insert(
                    key,
                    app.world.resources()[key],
                )
                &&& app.world.changed() == old(self).world.changed().insert(key)
                &&& app.world.non_send() == old(self).world.non_send().remove(key)
            },
            app.schedule == old(self).schedule,
            app.runner == old(self).runner,
            *final(self) == *final(app),
    {
        self.world.init_resource(key, make);
        self
    }

    /// As [`App::init_resource`], for a resource that is bound to the thread
    /// that inserts it.
    pub fn init_non_send_resource<M: FnOnce(&World<S::Resource>) -> S::Resource>(
        &mut self,
        key: ResourceKey,
        make: M,
    ) -> (app: &mut Self)
        requires
            old(self).wf(),
            !old(self).world.has(key) ==> call_requires(make, (&old(self).world,)),
        ensures
            app.wf(),
            old(self).world.has(key) ==> app.world == old(self).world,
            !old(self).world.has(key) ==> {
                &&& app.world.has(key)
                &&& call_ensures(make, (&old(self).world,), app.world.resources()[key])
                &&& app.world.resources() == old(self).world.resources().insert(
                    key,
                    app.world.resources()[key],
                )
                &&& app.world.changed() == old(self).world.changed().insert(key)
                &&& app.world.non_send() == old(self).world.non_send().insert(key)
            },
            app.schedule == old(self).schedule,
            app.runner == old(self).runner,
            *final(self) == *final(app),
    {
        self.world.init_non_send_resource(key, make);
        self
    }

    /// Whether `after` is this application with `system` added to the stage
    /// of label `label`, and nothing else changed.
    pub open spec fn system_added(&self, label: StageLabel, system: S, after: &Self) -> bool {
        &&& after.wf()
        &&& self.schedule.added_at(label, AppSystem::User(system), &after.schedule)
        &&& after.world == self.world
        &&& after.runner == self.runner
    }

    /// What adding a system to the stage of label `label` comes to: a
    /// startup stage is refused, and so is a label under which there is no
    /// stage of systems.
    pub open spec fn may_add_system(&self, label: StageLabel) -> Result<(), ScheduleError> {
        if label.is_startup() {
            Err(ScheduleError::StartupStage)
        } else if !self.schedule.takes_systems_at(label) {
            Err(ScheduleError::StageNotFound)
        } else {
            Ok(())
        }
    }

    /// Adds `system` to the stage of label `stage_label`, behind the systems
    /// that the stage holds.
    ///
    /// The label must not name a startup stage: systems are added to those
    /// with [`App::add_startup_system_to_stage`]. There must be a stage of
    /// systems of that label. Where the system is refused the application
    /// stays as it is.
    pub fn add_system_to_stage(&mut self, stage_label: StageLabel, system: S) -> (r: Result<
        &mut Self,
        ScheduleError,
    >)
        requires
            old(self).wf(),
        ensures
            match r {
                Ok(app) => {
                    &&& old(self).may_add_system(stage_label) is Ok
                    &&& old(self).system_added(stage_label, system, app)
                    &&& *final(self) == *final(app)
                },
                Err(e) => {
                    &&& old(self).may_add_system(stage_label) == Err::<(), ScheduleError>(e)
                    &&& *final(self) == *old(self)
                },
            },
    {
        if stage_label.is_startup() {
            return Err(ScheduleError::StartupStage);
        }
        match self.schedule.add_system_to_stage(stage_label, AppSystem::User(system)) {
            Ok(_) => Ok(self),
            Err(e) => Err(e),
        }
    }

    /// Adds `system` to the update stage, behind the systems that the stage
    /// holds. There must be an update stage.
    pub fn add_system(&mut self, system: S) -> (r: Result<&mut Self, ScheduleError>)
        requires
            old(self).wf(),
        ensures
            match r {
                Ok(app) => {
                    &&& old(self).may_add_system(StageLabel::Core(CoreStage::Update)) is Ok
                    &&& old(self).system_added(StageLabel::Core(CoreStage::Update), system, app)
                    &&& *final(self) == *final(app)
                },
                Err(e) => {
                    &&& old(self).may_add_system(StageLabel::Core(CoreStage::Update)) == Err::<
                        (),
                        ScheduleError,
                    >(e)
                    &&& *final(self) == *old(self)
                },
            },
    {
        self.add_system_to_stage(StageLabel::Core(CoreStage::Update), system)
    }

    /// Whether `after` is this application with `system` added to the stage
    /// of label `label` of the startup schedule, and nothing else changed.
    pub open spec fn startup_system_added(&self, label: StageLabel, system: S, after: &Self) -> bool {
        &&& after.wf()
        &&& self.schedule.added_within(
            StageLabel::StartupSchedule(StartupSchedule),
            label,
            AppSystem::User(system),
            &after.schedule,
        )
        &&& after.world == self.world
        &&& after.runner == self.runner
    }

    /// Whether the startup schedule has a stage of systems of label `label`.
    pub open spec fn has_startup_stage(&self, label: StageLabel) -> bool {
        self.schedule.takes_systems_within(StageLabel::StartupSchedule(StartupSchedule), label)
    }

    /// Adds `system` to the stage of label `stage_label` of the startup
    /// schedule, behind the systems that the stage holds. There must be a
    /// startup schedule with a stage of systems of that label.
    pub fn add_startup_system_to_stage(&mut self, stage_label: StageLabel, system: S) -> (r: Result<
        &mut Self,
        ScheduleError,
    >)
        requires
            old(self).wf(),
        ensures
            match r {
                Ok(app) => {
                    &&& old(self).has_startup_stage(stage_label)
                    &&& old(self).startup_system_added(stage_label, system, app)
                    &&& *final(self) == *final(app)
                },
                Err(e) => {
                    &&& !old(self).has_startup_stage(stage_label)
                    &&& e == ScheduleError::StageNotFound
                    &&& *final(self) == *old(self)
                },
            },
    {
        match self.schedule.add_system_within(
            StageLabel::StartupSchedule(StartupSchedule),
            stage_label,
            AppSystem::User(system),
        ) {
            Ok(_) => Ok(self),
            Err(e) => Err(e),
        }
    }

    /// Adds `system` to the startup stage of the startup schedule, behind
    /// the systems that the stage holds.
    pub fn add_startup_system(&mut self, system: S) -> (r: Result<&mut Self, ScheduleError>)
        requires
            old(self).wf(),
        ensures
            match r {
                Ok(app) => {
                    &&& old(self).has_startup_stage(StageLabel::Startup(StartupStage::Startup))
                    &&& old(self).startup_system_added(
                        StageLabel::Startup(StartupStage::Startup),
                        system,
                        app,
                    )
                    &&& *final(self) == *final(app)
                },
                Err(e) => {
                    &&& !old(self).has_startup_stage(StageLabel::Startup(StartupStage::Startup))
                    &&& e == ScheduleError::StageNotFound
                    &&& *final(self) == *old(self)
                },
            },
    {
        self.add_startup_system_to_stage(StageLabel::Startup(StartupStage::Startup), system)
    }

    /// Advances the application by one tick: runs the schedule on the world.
    ///
    /// The stages run in their order, each one after the one before it is
    /// done, and each system works on the world that the one before it left.
    /// The startup schedule runs with the first tick only.
    pub fn update(&mut self)
        requires
            old(self).wf(),
        ensures
            final(self).wf(),
            old(self).schedule.ran(&final(self).schedule),
            reaches(old(self).schedule.pending(), old(self).world, final(self).world),
            final(self).runner == old(self).runner,
    {
        self.schedule.run(&mut self.world);
    }

    /// Whether the schedule has none of the default stages yet.
    pub open spec fn lacks_default_stages(&self) -> bool {
        forall|i: int|
            0 <= i < default_labels().len() ==> !self.schedule.has_stage(
                #[trigger] default_labels()[i],
            )
    }

    /// Whether `after` is this application with the default stages added
    /// behind the stages that it has, each of them without systems, and
    /// nothing else changed.
    pub open spec fn default_stages_added(&self, after: &Self) -> bool {
        let had = self.schedule.stages().len() as int;
        &&& after.wf()
        &&& after.schedule.labels() == self.schedule.labels() + default_labels()
        &&& after.schedule.stages().len() == had + 6
        &&& after.schedule.stages().take(had) == self.schedule.stages()
        &&& is_empty_stage(after.schedule.stages()[had])
        &&& is_new_startup_schedule(after.schedule.stages()[had + 1])
        &&& is_empty_stage(after.schedule.stages()[had + 2])
        &&& is_empty_stage(after.schedule.stages()[had + 3])
        &&& is_empty_stage(after.schedule.stages()[had + 4])
        &&& is_empty_stage(after.schedule.stages()[had + 5])
        &&& after.schedule.runs_once() == self.schedule.runs_once()
        &&& after.schedule.has_fired() == self.schedule.has_fired()
        &&& after.world == self.world
        &&& after.runner == self.runner
    }

    /// Whether the schedule has a stage of one of the default labels.
    fn has_default_stage(&self) -> (r: bool)
        ensures
            r == !self.lacks_default_stages(),
    {
        let found = self.schedule.contains_stage(StageLabel::Core(CoreStage::First))
            || self.schedule.contains_stage(StageLabel::StartupSchedule(StartupSchedule))
            || self.schedule.contains_stage(StageLabel::Core(CoreStage::PreUpdate))
            || self.schedule.contains_stage(StageLabel::Core(CoreStage::Update))
            || self.schedule.contains_stage(StageLabel::Core(CoreStage::PostUpdate))
            || self.schedule.contains_stage(StageLabel::Core(CoreStage::Last));
        proof {
            let labels = default_labels();
            assert(labels[0] == StageLabel::Core(CoreStage::First));
            assert(labels[1] == StageLabel::StartupSchedule(StartupSchedule));
            assert(labels[2] == StageLabel::Core(CoreStage::PreUpdate));
            assert(labels[3] == StageLabel::Core(CoreStage::Update));
            assert(labels[4] == StageLabel::Core(CoreStage::PostUpdate));
            assert(labels[5] == StageLabel::Core(CoreStage::Last));
        }
        found
    }

    /// Adds the default stages to the schedule, behind the stages that it
    /// has, giving it its standard structure. The stages run in this order:
    ///
    /// - **First**, at the very start of a tick;
    /// - **the startup schedule**, once only, with its own stages
    ///   pre-startup, startup and post-startup in this order;
    /// - **pre-update**, where plugins prepare their state;
    /// - **update**, for the logic of the application, where systems are
    ///   added by default;
    /// - **post-update**, where plugins finish their work;
    /// - **last**, for the bookkeeping at the end of a tick.
    ///
    /// The schedule must have none of these stages yet; where it has one,
    /// none is added.
    pub fn add_default_stages(&mut self) -> (r: Result<&mut Self, ScheduleError>)
        requires
            old(self).wf(),
        ensures
            match r {
                Ok(app) => {
                    &&& old(self).lacks_default_stages()
                    &&& old(self).default_stages_added(app)
                    &&& *final(self) == *final(app)
                },
                Err(e) => {
                    &&& !old(self).lacks_default_stages()
                    &&& e == ScheduleError::StageExists
                    &&& *final(self) == *old(self)
                },
            },
    {
        if self.has_default_stage() {
            return Err(ScheduleError::StageExists);
        }
        let ghost labels = default_labels();
        proof {
            assert(!self.schedule.has_stage(labels[0]));
            assert(!self.schedule.has_stage(labels[1]));
            assert(!self.schedule.has_stage(labels[2]));
            assert(!self.schedule.has_stage(labels[3]));
            assert(!self.schedule.has_stage(labels[4]));
            assert(!self.schedule.has_stage(labels[5]));
        }
        let mut startup: Schedule<SystemStage<AppSystem<S>>> = Schedule::once();
        let _ = startup.add_stage(
            StageLabel::Startup(StartupStage::PreStartup),
            SystemStage::parallel(),
        );
        let _ = startup.add_stage(
            StageLabel::Startup(StartupStage::Startup),
            SystemStage::parallel(),
        );
        let _ = startup.add_stage(
            StageLabel::Startup(StartupStage::PostStartup),
            SystemStage::parallel(),
        );
        proof {
            assert(startup.labels() =~= startup_labels());
        }
        let _ = self.schedule.add_stage(
            StageLabel::Core(CoreStage::First),
            StageKind::Systems(SystemStage::parallel()),
        );
        let _ = self.schedule.add_stage(
            StageLabel::StartupSchedule(StartupSchedule),
            StageKind::Nested(startup),
        );
        let _ = self.schedule.add_stage(
            StageLabel::Core(CoreStage::PreUpdate),
            StageKind::Systems(SystemStage::parallel()),
        );
        let _ = self.schedule.add_stage(
            StageLabel::Core(CoreStage::Update),
            StageKind::Systems(SystemStage::parallel()),
        );
        let _ = self.schedule.add_stage(
            StageLabel::Core(CoreStage::PostUpdate),
            StageKind::Systems(SystemStage::parallel()),
        );
        let _ = self.schedule.add_stage(
            StageLabel::Core(CoreStage::Last),
            StageKind::Systems(SystemStage::parallel()),
        );
        proof {
            let had = old(self).schedule.stages().len() as int;
            assert(self.schedule.labels() =~= old(self).schedule.labels() + default_labels());
            assert(self.schedule.stages().take(had) =~= old(self).schedule.stages());
        }
        Ok(self)
    }

    /// Whether this is an application as it is by default: one with the
    /// default stages, the system that clears the trackers in the last of
    /// them, and nothing else.
    pub open spec fn is_default(&self) -> bool {
        &&& self.wf()
        &&& self.world.resources() == Map::<ResourceKey, S::Resource>::empty()
        &&& self.world.changed() == Set::<ResourceKey>::empty()
        &&& self.world.non_send() == Set::<ResourceKey>::empty()
        &&& self.runner is None
        &&& !self.schedule.runs_once()
        &&& !self.schedule.has_fired()
        &&& self.schedule.labels() == default_labels()
        &&& is_empty_stage(self.schedule.stages()[0])
        &&& is_new_startup_schedule(self.schedule.stages()[1])
        &&& is_empty_stage(self.schedule.stages()[2])
        &&& is_empty_stage(self.schedule.stages()[3])
        &&& is_empty_stage(self.schedule.stages()[4])
        &&& self.schedule.stages()[5] matches StageKind::Systems(last)
        &&& last.spec_systems() == seq![AppSystem::<S>::ClearTrackers]
    }

    /// The default application, with `program_start_time` as its one
    /// resource, under `key`.
    pub fn new(key: ResourceKey, program_start_time: S::Resource) -> (app: Self)
        ensures
            app.wf(),
            app.world.resources() == Map::<ResourceKey, S::Resource>::empty().insert(
                key,
                program_start_time,
            ),
            app.world.changed() == Set::<ResourceKey>::empty().insert(key),
            app.world.non_send() == Set::<ResourceKey>::empty(),
            app.runner is None,
            !app.schedule.runs_once(),
            !app.schedule.has_fired(),
            app.schedule.labels() == default_labels(),
            is_empty_stage(app.schedule.stages()[0]),
            is_new_startup_schedule(app.schedule.stages()[1]),
            is_empty_stage(app.schedule.stages()[2]),
            is_empty_stage(app.schedule.stages()[3]),
            is_empty_stage(app.schedule.stages()[4]),
            app.schedule.stages()[5] matches StageKind::Systems(last) && last.spec_systems()
                == seq![AppSystem::<S>::ClearTrackers],
    {
        let mut app = App::default();
        app.world.insert_resource(key, program_start_time);
        proof {
            assert(app.world.non_send() =~= Set::<ResourceKey>::empty());
        }
        app
    }

    /// Whether `after` is what setting this application up for the events
    /// of one type makes of it, where `events` is the empty queue for them,
    /// to be kept under `key`, and `update_system` the system that marks the
    /// start of a tick on the queue.
    ///
    /// Where there is a resource under `key` the application has been set up
    /// for these events, and stays as it is. Otherwise the queue becomes a
    /// resource and the system goes to the first stage.
    pub open spec fn event_added(
        &self,
        key: ResourceKey,
        events: S::Resource,
        update_system: S,
        after: &Self,
    ) -> bool {
        if self.world.has(key) {
            *after == *self
        } else {
            &&& after.wf()
            &&& after.world.resources() == self.world.resources().insert(key, events)
            &&& after.world.changed() == self.world.changed().insert(key)
            &&& after.world.non_send() == self.world.non_send().remove(key)
            &&& self.schedule.added_at(
                StageLabel::Core(CoreStage::First),
                AppSystem::User(update_system),
                &after.schedule,
            )
            &&& after.runner == self.runner
        }
    }

    /// Whether the application can be set up for events that it has not
    /// been set up for: it can where there is a first stage.
    pub open spec fn takes_events(&self) -> bool {
        self.schedule.takes_systems_at(StageLabel::Core(CoreStage::First))
    }

    /// Sets the application up for the events of one type. `events` is the
    /// empty queue for them, to be kept as a resource under `key`, and
    /// `update_system` the system that marks the start of a tick on the
    /// queue; it goes to the first stage.
    ///
    /// Where there is a resource under `key` already, nothing happens: for
    /// one type of event there is one queue and one system, however often
    /// this is called. Where there is none and no first stage either, the
    /// call fails and nothing happens.
    pub fn add_event(&mut self, key: ResourceKey, events: S::Resource, update_system: S) -> (r:
        Result<&mut Self, ScheduleError>)
        requires
            old(self).wf(),
        ensures
            match r {
                Ok(app) => {
                    &&& old(self).world.has(key) || old(self).takes_events()
                    &&& old(self).event_added(key, events, update_system, app)
                    &&& *final(self) == *final(app)
                },
                Err(e) => {
                    &&& !old(self).world.has(key)
                    &&& !old(self).takes_events()
                    &&& e == ScheduleError::StageNotFound
                    &&& *final(self) == *old(self)
                },
            },
    {
        if self.world.contains_resource(key) {
            return Ok(self);
        }
        if !self.schedule.accepts_systems_at(StageLabel::Core(CoreStage::First)) {
            return Err(ScheduleError::StageNotFound);
        }
        self.world.insert_resource(key, events);
        let _ = self.schedule.add_system_at(
            StageLabel::Core(CoreStage::First),
            AppSystem::User(update_system),
        );
        Ok(self)
    }

    /// However often an application is set up for the events of one type,
    /// it is set up once: the first time gives it one queue and one system
    /// that updates the queue, and every further time leaves it as the first
    /// one left it.
    pub proof fn lemma_add_event_idempotent(
        apps: Seq<Self>,
        key: ResourceKey,
        events: Seq<S::Resource>,
        update_systems: Seq<S>,
    )
        requires
            apps.len() >= 2,
            events.len() == apps.len() - 1,
            update_systems.len() == apps.len() - 1,
            forall|i: int|
                0 <= i < apps.len() - 1 ==> (#[trigger] apps[i]).event_added(
                    key,
                    events[i],
                    update_systems[i],
                    &apps[i + 1],
                ),
            !apps[0].world.has(key),
        ensures
            apps[1].world.resources() == apps[0].world.resources().insert(key, events[0]),
            apps[0].schedule.added_at(
                StageLabel::Core(CoreStage::First),
                AppSystem::User(update_systems[0]),
                &apps[1].schedule,
            ),
            forall|i: int| 1 <= i < apps.len() ==> #[trigger] apps[i] == apps[1],
    {
        assert(apps[0].event_added(key, events[0], update_systems[0], &apps[1]));
        assert(apps[1].world.has(key));
        assert forall|i: int| 1 <= i < apps.len() implies #[trigger] apps[i] == apps[1] by {
            Self::lemma_stays(apps, key, events, update_systems, i);
        }
    }

    /// Once an application is set up for the events of one type, setting it
    /// up again changes nothing of it.
    proof fn lemma_stays(
        apps: Seq<Self>,
        key: ResourceKey,
        events: Seq<S::Resource>,
        update_systems: Seq<S>,
        at: int,
    )
        requires
            1 <= at < apps.len(),
            events.len() == apps.len() - 1,
            update_systems.len() == apps.len() - 1,
            forall|i: int|
                0 <= i < apps.len() - 1 ==> (#[trigger] apps[i]).event_added(
                    key,
                    events[i],
                    update_systems[i],
                    &apps[i + 1],
                ),
            apps[1].world.has(key),
        ensures
            apps[at] == apps[1],
        decreases at,
    {
        if at > 1 {
            Self::lemma_stays(apps, key, events, update_systems, at - 1);
            assert(apps[at - 1].event_added(
                key,
                events[at - 1],
                update_systems[at - 1],
                &apps[at],
            ));
        }
    }

    /// Hands the application to `plugin` to be set up, once, and returns the
    /// application as the plugin left it.
    pub fn add_plugin<P: Plugin<S, F>>(&mut self, plugin: P) -> (app: &mut Self)
        requires
            old(self).wf(),
        ensures
            app.wf(),
            plugin.configures(*old(self), *app),
            *final(self) == *final(app),
    {
        plugin.setup(self);
        self
    }

    /// One turn of running the application: runs the schedule on the world,
    /// then moves the application out, leaving an empty one in its place,
    /// and takes the runner out of it.
    ///
    /// Returned are the application as the tick left it, without its runner,
    /// and beside it the runner that was set, if one was. The runner is to
    /// be handed the application; where there is none, [`run_once`] is. To
    /// run an application is to do this over and over.
    pub fn run(&mut self) -> (handed: (Self, Option<F>))
        requires
            old(self).wf(),
        ensures
            handed.0.wf(),
            old(self).schedule.ran(&handed.0.schedule),
            reaches(old(self).schedule.pending(), old(self).world, handed.0.world),
            handed.0.runner is None,
            handed.1 == old(self).runner,
            final(self).is_empty(),
    {
        self.schedule.run(&mut self.world);
        let mut app = App::empty();
        std::mem::swap(self, &mut app);
        let runner = app.runner.take();
        (app, runner)
    }

    /// Whether the application has nothing in it: no resource, no stage, no
    /// runner.
    pub open spec fn is_empty(&self) -> bool {
        &&& self.wf()
        &&& self.world.resources() == Map::<ResourceKey, S::Resource>::empty()
        &&& self.world.changed() == Set::<ResourceKey>::empty()
        &&& self.world.non_send() == Set::<ResourceKey>::empty()
        &&& self.schedule.labels() == Seq::<StageLabel>::empty()
        &&& self.schedule.stages() == Seq::<StageKind<AppSystem<S>>>::empty()
        &&& !self.schedule.runs_once()
        &&& !self.schedule.has_fired()
        &&& self.runner is None
    }
}

/// The labels of the default stages, in the order in which the stages run.
pub open spec fn default_labels() -> Seq<StageLabel> {
    seq![
        StageLabel::Core(CoreStage::First),
        StageLabel::StartupSchedule(StartupSchedule),
        StageLabel::Core(CoreStage::PreUpdate),
        StageLabel::Core(CoreStage::Update),
        StageLabel::Core(CoreStage::PostUpdate),
        StageLabel::Core(CoreStage::Last),
    ]
}

/// The labels of the stages of the startup schedule, in the order in which
/// the stages run.
pub open spec fn startup_labels() -> Seq<StageLabel> {
    seq![
        StageLabel::Startup(StartupStage::PreStartup),
        StageLabel::Startup(StartupStage::Startup),
        StageLabel::Startup(StartupStage::PostStartup),
    ]
}

/// Whether `stage` is a stage of systems without systems.
pub open spec fn is_empty_stage<S: System>(stage: StageKind<S>) -> bool {
    &&& stage matches StageKind::Systems(systems)
    &&& systems.spec_systems() == Seq::<S>::empty()
}

/// Whether `stage` is a startup schedule as it is when it is new: a schedule
/// that runs once and has not run, with the stages pre-startup, startup and
/// post-startup in this order, each without systems.
pub open spec fn is_new_startup_schedule<S: System>(stage: StageKind<S>) -> bool {
    &&& stage matches StageKind::Nested(schedule)
    &&& schedule.wf()
    &&& schedule.runs_once()
    &&& !schedule.has_fired()
    &&& schedule.labels() == startup_labels()
    &&& forall|i: int|
        0 <= i < schedule.stages().len() ==> (#[trigger] schedule.stages()[i]).spec_systems()
            == Seq::<S>::empty()
}

impl<S: System, F> Default for App<S, F> {
    /// An application with the default stages and with the system that
    /// clears the trackers in the last of them.
    fn default() -> (app: Self)
        ensures
            app.is_default(),
    {
        let mut app = App::empty();
        proof {
            assert forall|i: int| 0 <= i < default_labels().len() implies !app.schedule.has_stage(
                #[trigger] default_labels()[i],
            ) by {}
        }
        let _ = app.add_default_stages();
        let ghost staged = app;
        let last = StageLabel::Core(CoreStage::Last);
        proof {
            assert(staged.schedule.labels() =~= default_labels());
            assert(staged.schedule.labels()[5] == last);
            assert(staged.schedule.has_stage(last));
            assert(staged.schedule.labels().index_of(last) == 5);
        }
        let _ = app.schedule.add_system_to_stage(last, AppSystem::ClearTrackers);
        proof {
            let stage = app.schedule.stages()[5];
            assert(stage matches StageKind::Systems(systems) && systems.spec_systems()
                =~= seq![AppSystem::<S>::ClearTrackers]);
        }
        app
    }
}

/// A unit of configuration: something that sets an application up, by
/// adding stages, systems and resources to it, by handing it to further
/// plugins, or by setting its runner.
pub trait Plugin<S: System, F> {
    /// Whether this plugin can make the application `after` of the
    /// application `before`. A plugin that says nothing of itself may do
    /// anything.
    open spec fn configures(&self, before: App<S, F>, after: App<S, F>) -> bool {
        true
    }

    /// Configures the application to which this plugin is added.
    fn setup(&self, app: &mut App<S, F>)
        requires
            old(app).wf(),
        ensures
            final(app).wf(),
            self.configures(*old(app), *final(app)),
    ;

    /// A name for the plugin, for people to read. By custom it is the name
    /// of the plugin's type.
    fn name(&self) -> &str;
}

/// Runs an application that has no runner: advances it by one tick, and
/// returns it as the tick left it.
pub fn run_once<S: System, F>(app: App<S, F>) -> (after: App<S, F>)
    requires
        app.wf(),
    ensures
        after.wf(),
        app.schedule.ran(&after.schedule),
        reaches(app.schedule.pending(), app.world, after.world),
        after.runner == app.runner,
{
    let mut app = app;
    app.update();
    app
}

} // verus!
