use ne_app::app::{run_once, App, AppSystem, Plugin};
use ne_app::event::Events;
use ne_app::label::{CoreStage, StageLabel, StartupSchedule, StartupStage};
use ne_app::schedule::{Schedule, StageKind};
use ne_app::stage::{ScheduleError, SystemStage};
use ne_app::system::{Access, System};
use ne_app::world::World;

const LOG: u64 = 0;
const COUNTER: u64 = 1;
const PINGS: u64 = 2;
const START: u64 = 3;

#[derive(Debug, Clone, PartialEq)]
struct Ping(u32);

#[derive(Debug)]
enum Res {
    Log(Vec<&'static str>),
    Counter(u32),
    Pings(Events<Ping>),
    Start(u64),
}

enum Sys {
    Append(&'static str),
    Count,
    UpdatePings,
}

impl System for Sys {
    type Resource = Res;

    fn access(&self) -> Access {
        match self {
            Sys::Append(_) => Access { reads: vec![], writes: vec![LOG], exclusive: false },
            Sys::Count => Access { reads: vec![], writes: vec![COUNTER], exclusive: false },
            Sys::UpdatePings => Access { reads: vec![], writes: vec![PINGS], exclusive: false },
        }
    }

    fn invoke(&self, world: &mut World<Res>) {
        match self {
            Sys::Append(name) => {
                if let Some(Res::Log(log)) = world.get_resource_mut(LOG) {
                    log.push(name);
                }
            }
            Sys::Count => {
                if let Some(Res::Counter(n)) = world.get_resource_mut(COUNTER) {
                    *n += 1;
                }
            }
            Sys::UpdatePings => {
                if let Some(Res::Pings(pings)) = world.get_resource_mut(PINGS) {
                    pings.update();
                }
            }
        }
    }
}

type Runner = fn(App<Sys, u8>);
type TestApp = App<Sys, u8>;

fn log_of(app: &TestApp) -> Vec<&'static str> {
    match app.world.get_resource(LOG) {
        Some(Res::Log(log)) => log.clone(),
        _ => vec![],
    }
}

fn counter_of(app: &TestApp) -> u32 {
    match app.world.get_resource(COUNTER) {
        Some(Res::Counter(n)) => *n,
        _ => 0,
    }
}

fn systems_in(app: &TestApp, label: StageLabel) -> usize {
    match app.schedule.stage(label) {
        Some(StageKind::Systems(stage)) => stage.len(),
        _ => panic!("no stage of systems under the label"),
    }
}

fn startup_systems_in(app: &TestApp, label: StageLabel) -> usize {
    match app.schedule.stage(StageLabel::StartupSchedule(StartupSchedule)) {
        Some(StageKind::Nested(startup)) => startup.stage(label).map(|s| s.len()).unwrap_or(0),
        _ => panic!("no startup schedule"),
    }
}

fn core_stage(stage: CoreStage) -> StageLabel {
    StageLabel::Core(stage)
}

fn default_labels() -> Vec<StageLabel> {
    vec![
        core_stage(CoreStage::First),
        StageLabel::StartupSchedule(StartupSchedule),
        core_stage(CoreStage::PreUpdate),
        core_stage(CoreStage::Update),
        core_stage(CoreStage::PostUpdate),
        core_stage(CoreStage::Last),
    ]
}

#[test]
fn an_empty_app_has_nothing_in_it() {
    let app: TestApp = App::empty();
    assert_eq!(app.world.len(), 0);
    assert_eq!(app.schedule.len(), 0);
    assert!(app.runner.is_none());
}

#[test]
fn the_default_app_has_the_default_stages_in_their_order() {
    let app: TestApp = App::default();
    assert_eq!(app.schedule.stage_order().clone(), default_labels());
    assert_eq!(app.world.len(), 0);
    assert!(app.runner.is_none());
    for stage in [CoreStage::First, CoreStage::PreUpdate, CoreStage::Update, CoreStage::PostUpdate] {
        assert_eq!(systems_in(&app, core_stage(stage)), 0);
    }
    assert_eq!(systems_in(&app, core_stage(CoreStage::Last)), 1);
    match app.schedule.stage(StageLabel::StartupSchedule(StartupSchedule)) {
        Some(StageKind::Nested(startup)) => {
            assert!(startup.is_run_once());
            assert!(!startup.fired());
            assert_eq!(
                startup.stage_order().clone(),
                vec![
                    StageLabel::Startup(StartupStage::PreStartup),
                    StageLabel::Startup(StartupStage::Startup),
                    StageLabel::Startup(StartupStage::PostStartup),
                ]
            );
        }
        _ => panic!("the startup schedule is a schedule"),
    }
}

#[test]
fn a_new_app_knows_when_the_program_started() {
    let app: TestApp = App::new(START, Res::Start(42));
    assert_eq!(app.schedule.stage_order().clone(), default_labels());
    assert_eq!(app.world.len(), 1);
    assert!(matches!(app.world.get_resource(START), Some(Res::Start(42))));
}

#[test]
fn default_stages_are_added_once() {
    let mut app: TestApp = App::default();
    assert_eq!(app.add_default_stages().err(), Some(ScheduleError::StageExists));
    assert_eq!(app.schedule.stage_order().clone(), default_labels());
    let mut partly: TestApp = App::empty();
    assert!(partly
        .add_stage(core_stage(CoreStage::Update), StageKind::Systems(SystemStage::parallel()))
        .is_ok());
    assert_eq!(partly.add_default_stages().err(), Some(ScheduleError::StageExists));
    assert_eq!(partly.schedule.stage_order().clone(), vec![core_stage(CoreStage::Update)]);
}

#[test]
fn default_stages_go_behind_the_stages_there_are() {
    let mut app: TestApp = App::empty();
    assert!(app
        .add_stage(StageLabel::Custom(7), StageKind::Systems(SystemStage::parallel()))
        .is_ok());
    assert!(app.add_default_stages().is_ok());
    let mut expected = vec![StageLabel::Custom(7)];
    expected.extend(default_labels());
    assert_eq!(app.schedule.stage_order().clone(), expected);
}

#[test]
fn the_app_runs_first_then_startup_once_then_the_other_stages() {
    let mut app: TestApp = App::default();
    app.insert_resource(LOG, Res::Log(vec![]));
    for (stage, name) in [
        (CoreStage::Last, "Last"),
        (CoreStage::PostUpdate, "PostUpdate"),
        (CoreStage::Update, "Update"),
        (CoreStage::PreUpdate, "PreUpdate"),
        (CoreStage::First, "First"),
    ] {
        assert!(app.add_system_to_stage(core_stage(stage), Sys::Append(name)).is_ok());
    }
    assert!(app.add_startup_system(Sys::Append("startup")).is_ok());
    app.update();
    app.update();
    assert_eq!(
        log_of(&app),
        vec![
            "First",
            "startup",
            "PreUpdate",
            "Update",
            "PostUpdate",
            "Last",
            "First",
            "PreUpdate",
            "Update",
            "PostUpdate",
            "Last"
        ]
    );
}

#[test]
fn systems_go_to_update_by_default() {
    let mut app: TestApp = App::default();
    assert!(app.add_system(Sys::Count).is_ok());
    assert!(app.add_system(Sys::Count).is_ok());
    assert_eq!(systems_in(&app, core_stage(CoreStage::Update)), 2);
    assert_eq!(systems_in(&app, core_stage(CoreStage::First)), 0);
    app.insert_resource(COUNTER, Res::Counter(0));
    app.update();
    assert_eq!(counter_of(&app), 2);
}

#[test]
fn startup_systems_go_to_the_startup_stage_by_default() {
    let mut app: TestApp = App::default();
    assert!(app.add_startup_system(Sys::Count).is_ok());
    assert!(app
        .add_startup_system_to_stage(StageLabel::Startup(StartupStage::PreStartup), Sys::Count)
        .is_ok());
    assert_eq!(startup_systems_in(&app, StageLabel::Startup(StartupStage::Startup)), 1);
    assert_eq!(startup_systems_in(&app, StageLabel::Startup(StartupStage::PreStartup)), 1);
    assert_eq!(startup_systems_in(&app, StageLabel::Startup(StartupStage::PostStartup)), 0);
    app.insert_resource(COUNTER, Res::Counter(0));
    for _ in 0..4 {
        app.update();
    }
    assert_eq!(counter_of(&app), 2);
}

#[test]
fn a_plain_system_is_refused_by_a_startup_label() {
    let mut app: TestApp = App::default();
    for stage in [StartupStage::PreStartup, StartupStage::Startup, StartupStage::PostStartup] {
        assert_eq!(
            app.add_system_to_stage(StageLabel::Startup(stage), Sys::Count).err(),
            Some(ScheduleError::StartupStage)
        );
        assert_eq!(startup_systems_in(&app, StageLabel::Startup(stage)), 0);
    }
}

#[test]
fn a_system_for_a_stage_that_is_not_there_is_refused() {
    let mut app: TestApp = App::empty();
    assert_eq!(app.add_system(Sys::Count).err(), Some(ScheduleError::StageNotFound));
    assert_eq!(
        app.add_system_to_stage(StageLabel::Custom(1), Sys::Count).err(),
        Some(ScheduleError::StageNotFound)
    );
    assert_eq!(app.add_startup_system(Sys::Count).err(), Some(ScheduleError::StageNotFound));
    let mut app: TestApp = App::default();
    assert_eq!(
        app.add_system_to_stage(StageLabel::StartupSchedule(StartupSchedule), Sys::Count).err(),
        Some(ScheduleError::StageNotFound)
    );
    assert_eq!(
        app.add_startup_system_to_stage(core_stage(CoreStage::Update), Sys::Count).err(),
        Some(ScheduleError::StageNotFound)
    );
}

#[test]
fn a_stage_label_is_used_once_in_an_app() {
    let mut app: TestApp = App::default();
    assert_eq!(
        app.add_stage(core_stage(CoreStage::Update), StageKind::Systems(SystemStage::parallel()))
            .err(),
        Some(ScheduleError::StageExists)
    );
    assert!(app
        .add_stage(StageLabel::Custom(1), StageKind::Systems(SystemStage::parallel()))
        .is_ok());
    assert_eq!(app.schedule.len(), 7);
    assert_eq!(app.schedule.position(StageLabel::Custom(1)), Some(6));
}

#[test]
fn insert_resource_overwrites_and_init_resource_does_not() {
    let mut app: TestApp = App::empty();
    app.insert_resource(COUNTER, Res::Counter(1)).insert_resource(COUNTER, Res::Counter(2));
    assert_eq!(counter_of(&app), 2);
    app.init_resource(COUNTER, |_| Res::Counter(9)).init_resource(LOG, |_| Res::Log(vec!["made"]));
    assert_eq!(counter_of(&app), 2);
    assert_eq!(log_of(&app), vec!["made"]);
    assert_eq!(app.world.len(), 2);
}

#[test]
fn non_send_resources_of_an_app_are_marked() {
    let mut app: TestApp = App::empty();
    app.insert_non_send_resource(COUNTER, Res::Counter(1))
        .init_non_send_resource(LOG, |_| Res::Log(vec![]))
        .init_non_send_resource(COUNTER, |_| Res::Counter(5));
    assert!(app.world.is_non_send(COUNTER));
    assert!(app.world.is_non_send(LOG));
    assert_eq!(counter_of(&app), 1);
}

#[test]
fn add_event_registers_one_queue_and_one_system_however_often() {
    let mut app: TestApp = App::default();
    for _ in 0..5 {
        assert!(app.add_event(PINGS, Res::Pings(Events::new()), Sys::UpdatePings).is_ok());
        assert_eq!(systems_in(&app, core_stage(CoreStage::First)), 1);
        assert_eq!(app.world.len(), 1);
    }
    assert!(app.world.contains_resource(PINGS));
}

#[test]
fn add_event_keeps_the_queue_it_made_first() {
    let mut app: TestApp = App::default();
    assert!(app.add_event(PINGS, Res::Pings(Events::new()), Sys::UpdatePings).is_ok());
    if let Some(Res::Pings(pings)) = app.world.get_resource_mut(PINGS) {
        pings.send(Ping(1));
    }
    assert!(app.add_event(PINGS, Res::Pings(Events::new()), Sys::UpdatePings).is_ok());
    match app.world.get_resource(PINGS) {
        Some(Res::Pings(pings)) => assert_eq!(pings.len(), 1),
        _ => panic!("the queue is a resource"),
    }
}

#[test]
fn add_event_needs_a_first_stage() {
    let mut app: TestApp = App::empty();
    assert_eq!(
        app.add_event(PINGS, Res::Pings(Events::new()), Sys::UpdatePings).err(),
        Some(ScheduleError::StageNotFound)
    );
    assert_eq!(app.world.len(), 0);
    app.insert_resource(PINGS, Res::Counter(0));
    assert!(app.add_event(PINGS, Res::Pings(Events::new()), Sys::UpdatePings).is_ok());
    assert!(matches!(app.world.get_resource(PINGS), Some(Res::Counter(0))));
}

#[test]
fn events_live_for_one_tick_after_the_tick_they_were_sent_in() {
    let mut app: TestApp = App::default();
    assert!(app.add_event(PINGS, Res::Pings(Events::new()), Sys::UpdatePings).is_ok());
    if let Some(Res::Pings(pings)) = app.world.get_resource_mut(PINGS) {
        pings.send(Ping(1));
    }
    let held = |app: &TestApp| match app.world.get_resource(PINGS) {
        Some(Res::Pings(pings)) => pings.len(),
        _ => panic!("the queue is a resource"),
    };
    app.update();
    assert_eq!(held(&app), 1);
    app.update();
    assert_eq!(held(&app), 0);
}

#[test]
fn the_last_stage_clears_the_trackers() {
    let mut app: TestApp = App::default();
    app.insert_resource(COUNTER, Res::Counter(0));
    assert!(app.world.is_changed(COUNTER));
    app.update();
    assert!(!app.world.is_changed(COUNTER));
    assert!(app.add_system(Sys::Count).is_ok());
    app.update();
    assert_eq!(counter_of(&app), 1);
    assert!(!app.world.is_changed(COUNTER));
}

#[test]
fn the_system_that_clears_the_trackers_runs_alone() {
    let mut app: TestApp = App::default();
    assert!(app.add_system_to_stage(core_stage(CoreStage::Last), Sys::Count).is_ok());
    assert!(app.add_system_to_stage(core_stage(CoreStage::Last), Sys::Append("x")).is_ok());
    match app.schedule.stage(core_stage(CoreStage::Last)) {
        Some(StageKind::Systems(stage)) => assert_eq!(stage.group_starts().clone(), vec![0, 1]),
        _ => panic!("the last stage is a stage of systems"),
    }
}

#[test]
fn only_the_runner_set_last_is_kept() {
    let mut app: TestApp = App::empty();
    app.set_runner(1);
    assert_eq!(app.runner, Some(1));
    app.set_runner(2).set_runner(3);
    assert_eq!(app.runner, Some(3));
}

#[test]
fn run_ticks_once_then_hands_out_app_and_runner() {
    let mut app: TestApp = App::default();
    app.insert_resource(COUNTER, Res::Counter(0));
    assert!(app.add_system(Sys::Count).is_ok());
    app.set_runner(7);
    let (handed, runner) = app.run();
    assert_eq!(runner, Some(7));
    assert!(handed.runner.is_none());
    assert_eq!(counter_of(&handed), 1);
    assert_eq!(handed.schedule.len(), 6);
    assert_eq!(app.world.len(), 0);
    assert_eq!(app.schedule.len(), 0);
    assert!(app.runner.is_none());
    let (again, runner) = app.run();
    assert_eq!(runner, None);
    assert_eq!(again.schedule.len(), 0);
}

#[test]
fn without_a_runner_run_once_ticks_once_more() {
    let mut app: TestApp = App::default();
    app.insert_resource(COUNTER, Res::Counter(0));
    assert!(app.add_system(Sys::Count).is_ok());
    assert!(app.add_startup_system(Sys::Count).is_ok());
    let (handed, runner) = app.run();
    assert!(runner.is_none());
    assert_eq!(counter_of(&handed), 2);
    let after = run_once(handed);
    assert_eq!(counter_of(&after), 3);
}

struct Inner;

impl Plugin<Sys, u8> for Inner {
    fn setup(&self, app: &mut TestApp) {
        if let Some(Res::Log(log)) = app.world.get_resource_mut(LOG) {
            log.push("inner");
        }
        let _ = app.add_system(Sys::Count);
    }

    fn name(&self) -> &str {
        "Inner"
    }
}

struct Outer;

impl Plugin<Sys, u8> for Outer {
    fn setup(&self, app: &mut TestApp) {
        if let Some(Res::Log(log)) = app.world.get_resource_mut(LOG) {
            log.push("outer");
        }
        app.add_plugin(Inner).set_runner(9);
    }

    fn name(&self) -> &str {
        "Outer"
    }
}

#[test]
fn a_plugin_is_set_up_once_and_may_add_plugins() {
    let mut app: TestApp = App::default();
    app.insert_resource(LOG, Res::Log(vec![]));
    app.set_runner(1);
    app.add_plugin(Outer).insert_resource(COUNTER, Res::Counter(0));
    assert_eq!(log_of(&app), vec!["outer", "inner"]);
    assert_eq!(app.runner, Some(9));
    assert_eq!(systems_in(&app, core_stage(CoreStage::Update)), 1);
    assert_eq!(Outer.name(), "Outer");
    assert_eq!(Inner.name(), "Inner");
    app.update();
    assert_eq!(counter_of(&app), 1);
}

#[test]
fn built_in_systems_say_what_they_touch() {
    let clear: AppSystem<Sys> = AppSystem::ClearTrackers;
    assert!(clear.access().exclusive);
    let user = AppSystem::User(Sys::Count).access();
    assert_eq!(user.writes, vec![COUNTER]);
    assert!(!user.exclusive);
    let _unused: Option<Runner> = None;
    let _also: Option<Schedule<SystemStage<Sys>>> = None;
}
