//! The core of an interactive application: an ordered pipeline of stages that
//! runs over a shared world every tick, and the bookkeeping that keeps a
//! presentation surface, its camera and the frames drawn to it consistent
//! with the window they belong to.
//!
//! Nothing here touches a window system or a graphics device. The functions
//! decide; the program around the library performs what they decide and hands
//! back what happened.

pub mod app;
pub mod event;
pub mod input;
pub mod label;
pub mod main_loop;
pub mod render;
pub mod schedule;
pub mod stage;
pub mod system;
pub mod time;
pub mod window;
pub mod world;

pub use app::{run_once, App, AppSystem, Plugin};
pub use event::{Events, ManualEventReader};
pub use label::{CoreStage, StageLabel, StartupSchedule, StartupStage};
pub use schedule::{Schedule, StageKind};
pub use stage::{ScheduleError, Stage, SystemStage};
pub use system::{Access, System};
pub use time::{get_time_passed, FirstFrameTime, ProgramStartTime};
pub use world::{ResourceKey, World};
