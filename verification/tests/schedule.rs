use ne_app::label::{CoreStage, StageLabel, StartupSchedule, StartupStage};
use ne_app::schedule::{Schedule, StageKind};
use ne_app::stage::{ScheduleError, Stage, SystemStage};
use ne_app::system::{Access, System};
use ne_app::world::World;

const LOG: u64 = 0;

type Log = Vec<&'static str>;

struct Append(&'static str);

impl System for Append {
    type Resource = Log;

    fn access(&self) -> Access {
        Access { reads: vec![], writes: vec![LOG], exclusive: false }
    }

    fn invoke(&self, world: &mut World<Log>) {
        if let Some(log) = world.get_resource_mut(LOG) {
            log.push(self.0);
        }
    }
}

fn core_stage(stage: CoreStage) -> StageLabel {
    StageLabel::Core(stage)
}

fn startup_stage(stage: StartupStage) -> StageLabel {
    StageLabel::Startup(stage)
}

fn startup_schedule() -> StageLabel {
    StageLabel::StartupSchedule(StartupSchedule)
}

fn systems() -> StageKind<Append> {
    StageKind::Systems(SystemStage::parallel())
}

fn log_of(world: &World<Log>) -> Log {
    world.get_resource(LOG).cloned().unwrap_or_default()
}

fn world_with_log() -> World<Log> {
    let mut world = World::new();
    world.insert_resource(LOG, Vec::new());
    world
}

fn observed_stages() -> Schedule<StageKind<Append>> {
    let mut schedule = Schedule::new();
    for (stage, name) in [
        (CoreStage::First, "First"),
        (CoreStage::PreUpdate, "PreUpdate"),
        (CoreStage::Update, "Update"),
        (CoreStage::PostUpdate, "PostUpdate"),
        (CoreStage::Last, "Last"),
    ] {
        assert_eq!(schedule.add_stage(core_stage(stage), systems()), Ok(()));
        assert_eq!(schedule.add_system_to_stage(core_stage(stage), Append(name)), Ok(()));
    }
    schedule
}

fn startup_stages() -> StageKind<Append> {
    let mut nested = Schedule::once();
    assert_eq!(nested.add_stage(startup_stage(StartupStage::PreStartup), SystemStage::parallel()), Ok(()));
    assert_eq!(nested.add_stage(startup_stage(StartupStage::Startup), SystemStage::parallel()), Ok(()));
    assert_eq!(nested.add_stage(startup_stage(StartupStage::PostStartup), SystemStage::parallel()), Ok(()));
    StageKind::Nested(nested)
}

#[test]
fn observers_log_startup_once_then_every_stage_each_run() {
    let mut schedule = observed_stages();
    assert_eq!(
        schedule.add_stage_before(core_stage(CoreStage::First), startup_schedule(), startup_stages()),
        Ok(())
    );
    assert_eq!(
        schedule.add_system_within(
            startup_schedule(),
            startup_stage(StartupStage::Startup),
            Append("startup")
        ),
        Ok(())
    );
    let mut world = world_with_log();
    schedule.run(&mut world);
    schedule.run(&mut world);
    assert_eq!(
        log_of(&world),
        vec![
            "startup",
            "First",
            "PreUpdate",
            "Update",
            "PostUpdate",
            "Last",
            "First",
            "PreUpdate",
            "Update",
            "PostUpdate",
            "Last"
        ]
    );
}

#[test]
fn stages_run_in_the_order_they_were_added() {
    let mut schedule: Schedule<StageKind<Append>> = Schedule::new();
    for (id, name) in [(3, "c"), (1, "a"), (2, "b")] {
        assert_eq!(schedule.add_stage(StageLabel::Custom(id), systems()), Ok(()));
        assert_eq!(schedule.add_system_to_stage(StageLabel::Custom(id), Append(name)), Ok(()));
    }
    let mut world = world_with_log();
    schedule.run(&mut world);
    assert_eq!(log_of(&world), vec!["c", "a", "b"]);
    assert_eq!(
        schedule.stage_order().clone(),
        vec![StageLabel::Custom(3), StageLabel::Custom(1), StageLabel::Custom(2)]
    );
}

#[test]
fn stages_put_before_and_after_run_in_their_place() {
    let mut schedule: Schedule<StageKind<Append>> = Schedule::new();
    let label = StageLabel::Custom;
    assert_eq!(schedule.add_stage(label(10), systems()), Ok(()));
    assert_eq!(schedule.add_stage(label(30), systems()), Ok(()));
    assert_eq!(schedule.add_stage_after(label(10), label(20), systems()), Ok(()));
    assert_eq!(schedule.add_stage_before(label(10), label(5), systems()), Ok(()));
    assert_eq!(schedule.add_stage_after(label(30), label(40), systems()), Ok(()));
    for (id, name) in [(40, "e"), (5, "a"), (30, "d"), (10, "b"), (20, "c")] {
        assert_eq!(schedule.add_system_to_stage(label(id), Append(name)), Ok(()));
    }
    assert_eq!(
        schedule.stage_order().clone(),
        vec![label(5), label(10), label(20), label(30), label(40)]
    );
    let mut world = world_with_log();
    schedule.run(&mut world);
    assert_eq!(log_of(&world), vec!["a", "b", "c", "d", "e"]);
}

#[test]
fn systems_of_a_stage_run_in_the_order_they_were_added() {
    let mut schedule: Schedule<StageKind<Append>> = Schedule::new();
    assert_eq!(schedule.add_stage(core_stage(CoreStage::Update), systems()), Ok(()));
    for name in ["one", "two", "three"] {
        assert_eq!(schedule.add_system_to_stage(core_stage(CoreStage::Update), Append(name)), Ok(()));
    }
    let mut world = world_with_log();
    schedule.run(&mut world);
    assert_eq!(log_of(&world), vec!["one", "two", "three"]);
}

#[test]
fn startup_systems_run_once_across_many_runs() {
    let mut schedule: Schedule<StageKind<Append>> = Schedule::new();
    assert_eq!(schedule.add_stage(core_stage(CoreStage::First), systems()), Ok(()));
    assert_eq!(schedule.add_stage(startup_schedule(), startup_stages()), Ok(()));
    for (stage, name) in [
        (StartupStage::PostStartup, "post"),
        (StartupStage::PreStartup, "pre"),
        (StartupStage::Startup, "startup-a"),
        (StartupStage::Startup, "startup-b"),
    ] {
        assert_eq!(
            schedule.add_system_within(startup_schedule(), startup_stage(stage), Append(name)),
            Ok(())
        );
    }
    assert_eq!(schedule.add_system_to_stage(core_stage(CoreStage::First), Append("First")), Ok(()));
    let mut world = world_with_log();
    for runs in 1..=5 {
        schedule.run(&mut world);
        let log = log_of(&world);
        for name in ["pre", "startup-a", "startup-b", "post"] {
            assert_eq!(log.iter().filter(|entry| **entry == name).count(), 1);
        }
        assert_eq!(log.iter().filter(|entry| **entry == "First").count(), runs);
    }
    assert_eq!(
        log_of(&world),
        vec!["First", "pre", "startup-a", "startup-b", "post", "First", "First", "First", "First"]
    );
}

#[test]
fn a_schedule_that_runs_once_records_that_it_fired() {
    let mut nested: Schedule<SystemStage<Append>> = Schedule::once();
    assert!(nested.is_run_once());
    assert!(!nested.fired());
    assert_eq!(nested.add_stage(startup_stage(StartupStage::Startup), SystemStage::parallel()), Ok(()));
    assert_eq!(
        nested.add_system_to_stage(startup_stage(StartupStage::Startup), Append("startup")),
        Ok(())
    );
    let mut world = world_with_log();
    nested.run(&mut world);
    assert!(nested.fired());
    nested.run(&mut world);
    nested.run(&mut world);
    assert_eq!(log_of(&world), vec!["startup"]);
}

#[test]
fn an_empty_schedule_leaves_the_world_alone() {
    let mut schedule: Schedule<StageKind<Append>> = Schedule::new();
    assert_eq!(schedule.len(), 0);
    let mut world = world_with_log();
    schedule.run(&mut world);
    assert_eq!(log_of(&world), Vec::<&str>::new());
    assert!(!schedule.is_run_once());
}

#[test]
fn positional_insert_next_to_a_missing_label_fails() {
    let mut schedule: Schedule<StageKind<Append>> = Schedule::new();
    assert_eq!(schedule.add_stage(core_stage(CoreStage::Update), systems()), Ok(()));
    assert_eq!(
        schedule.add_stage_before(core_stage(CoreStage::First), StageLabel::Custom(1), systems()),
        Err(ScheduleError::LabelNotFound)
    );
    assert_eq!(
        schedule.add_stage_after(core_stage(CoreStage::Last), StageLabel::Custom(1), systems()),
        Err(ScheduleError::LabelNotFound)
    );
    assert_eq!(schedule.stage_order().clone(), vec![core_stage(CoreStage::Update)]);
}

#[test]
fn a_label_is_used_once() {
    let mut schedule: Schedule<StageKind<Append>> = Schedule::new();
    assert_eq!(schedule.add_stage(core_stage(CoreStage::Update), systems()), Ok(()));
    assert_eq!(schedule.add_stage(core_stage(CoreStage::First), systems()), Ok(()));
    assert_eq!(
        schedule.add_stage(core_stage(CoreStage::Update), systems()),
        Err(ScheduleError::StageExists)
    );
    assert_eq!(
        schedule.add_stage_before(core_stage(CoreStage::Update), core_stage(CoreStage::First), systems()),
        Err(ScheduleError::StageExists)
    );
    assert_eq!(
        schedule.add_stage_after(core_stage(CoreStage::Update), core_stage(CoreStage::Update), systems()),
        Err(ScheduleError::StageExists)
    );
    assert_eq!(schedule.len(), 2);
}

#[test]
fn a_system_needs_a_stage_of_systems() {
    let mut schedule: Schedule<StageKind<Append>> = Schedule::new();
    assert_eq!(
        schedule.add_system_to_stage(core_stage(CoreStage::Update), Append("x")),
        Err(ScheduleError::StageNotFound)
    );
    assert_eq!(schedule.add_stage(startup_schedule(), startup_stages()), Ok(()));
    assert_eq!(
        schedule.add_system_to_stage(startup_schedule(), Append("x")),
        Err(ScheduleError::StageNotFound)
    );
    assert_eq!(
        schedule.add_system_within(startup_schedule(), StageLabel::Custom(9), Append("x")),
        Err(ScheduleError::StageNotFound)
    );
    assert_eq!(
        schedule.add_system_within(core_stage(CoreStage::Update), startup_stage(StartupStage::Startup), Append("x")),
        Err(ScheduleError::StageNotFound)
    );
    let mut world = world_with_log();
    schedule.run(&mut world);
    assert_eq!(log_of(&world), Vec::<&str>::new());
}

#[test]
fn position_finds_a_stage_by_its_label() {
    let schedule = observed_stages();
    assert_eq!(schedule.position(core_stage(CoreStage::First)), Some(0));
    assert_eq!(schedule.position(core_stage(CoreStage::Last)), Some(4));
    assert_eq!(schedule.position(startup_schedule()), None);
    assert!(schedule.contains_stage(core_stage(CoreStage::Update)));
    assert!(!schedule.contains_stage(StageLabel::Custom(0)));
    match schedule.stage(core_stage(CoreStage::Update)) {
        Some(StageKind::Systems(stage)) => assert_eq!(stage.len(), 1),
        _ => panic!("the update stage is a stage of systems"),
    }
    assert!(schedule.stage(StageLabel::Custom(0)).is_none());
}

struct Touch {
    reads: Vec<u64>,
    writes: Vec<u64>,
}

impl System for Touch {
    type Resource = Log;

    fn access(&self) -> Access {
        Access { reads: self.reads.clone(), writes: self.writes.clone(), exclusive: false }
    }

    fn invoke(&self, _world: &mut World<Log>) {}
}

fn touch(reads: &[u64], writes: &[u64]) -> Touch {
    Touch { reads: reads.to_vec(), writes: writes.to_vec() }
}

#[test]
fn systems_that_do_not_conflict_share_a_group() {
    let mut stage: SystemStage<Touch> = SystemStage::parallel();
    assert_eq!(stage.group_starts().clone(), Vec::<usize>::new());
    assert_eq!(stage.add_system(touch(&[1], &[])), Ok(()));
    assert_eq!(stage.add_system(touch(&[1, 2], &[])), Ok(()));
    assert_eq!(stage.add_system(touch(&[], &[3])), Ok(()));
    assert_eq!(stage.group_starts().clone(), vec![0]);
    assert_eq!(stage.len(), 3);
}

#[test]
fn a_writer_is_kept_apart_from_readers_and_writers() {
    let mut stage: SystemStage<Touch> = SystemStage::parallel();
    assert_eq!(stage.add_system(touch(&[1], &[])), Ok(()));
    assert_eq!(stage.add_system(touch(&[], &[1])), Ok(()));
    assert_eq!(stage.add_system(touch(&[2], &[])), Ok(()));
    assert_eq!(stage.add_system(touch(&[], &[1])), Ok(()));
    assert_eq!(stage.add_system(touch(&[1], &[])), Ok(()));
    assert_eq!(stage.add_system(touch(&[3], &[4])), Ok(()));
    assert_eq!(stage.group_starts().clone(), vec![0, 1, 3, 4]);
    assert_eq!(stage.accesses().len(), 6);
}

#[test]
fn conflicts_are_between_a_write_and_any_access() {
    let read_one = Access { reads: vec![1], writes: vec![], exclusive: false };
    let read_two = Access { reads: vec![2], writes: vec![], exclusive: false };
    let write_one = Access { reads: vec![], writes: vec![1], exclusive: false };
    let write_two = Access { reads: vec![7], writes: vec![2, 9], exclusive: false };
    assert!(!read_one.conflicts_with(&read_one));
    assert!(!read_one.conflicts_with(&read_two));
    assert!(read_one.conflicts_with(&write_one));
    assert!(write_one.conflicts_with(&read_one));
    assert!(write_one.conflicts_with(&write_one));
    assert!(!write_one.conflicts_with(&write_two));
    assert!(write_two.conflicts_with(&read_two));
    assert!(!write_two.conflicts_with(&read_one));
}

#[test]
fn an_exclusive_system_conflicts_with_every_system() {
    let nothing = Access { reads: vec![], writes: vec![], exclusive: false };
    let alone = Access { reads: vec![], writes: vec![], exclusive: true };
    assert!(!nothing.conflicts_with(&nothing));
    assert!(alone.conflicts_with(&nothing));
    assert!(nothing.conflicts_with(&alone));
    assert!(alone.conflicts_with(&alone));
}
