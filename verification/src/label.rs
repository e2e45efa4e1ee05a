//! The names by which stages are known.

use vstd::prelude::*;

verus! {

/// The names of the default stages of an application, in the order in which
/// they run.
#[derive(Debug, Hash, PartialEq, Eq, Clone, Copy, Structural)]
pub enum CoreStage {
    /// The stage that runs before all other stages.
    First,
    /// The stage that runs before [`CoreStage::Update`]. Plugins prepare
    /// their state here.
    PreUpdate,
    /// The stage responsible for doing most application logic. Systems are
    /// registered here by default.
    Update,
    /// The stage that runs after [`CoreStage::Update`]. Plugins finish their
    /// work here.
    PostUpdate,
    /// The stage that runs after all other stages, for the bookkeeping at
    /// the end of a tick.
    Last,
}

/// The names of the default startup stages of an application.
#[derive(Debug, Hash, PartialEq, Eq, Clone, Copy, Structural)]
pub enum StartupStage {
    /// The stage that runs once before [`StartupStage::Startup`].
    PreStartup,
    /// The stage that runs once when an application starts up.
    Startup,
    /// The stage that runs once after [`StartupStage::Startup`].
    PostStartup,
}

/// The label for the startup schedule, which runs once at the beginning of
/// an application.
///
/// A stage inside this schedule is named by a [`StartupStage`].
#[derive(Debug, Hash, PartialEq, Eq, Clone, Copy, Structural)]
pub struct StartupSchedule;

/// The name of a stage. Within one schedule no two stages have the same.
#[derive(Debug, Hash, PartialEq, Eq, Clone, Copy, Structural)]
pub enum StageLabel {
    /// One of the default stages.
    Core(CoreStage),
    /// One of the default startup stages.
    Startup(StartupStage),
    /// The startup schedule.
    StartupSchedule(StartupSchedule),
    /// A stage of the application's own, by a number of its choosing.
    Custom(u64),
}

impl StageLabel {
    /// Whether the label names a startup stage. Systems reach such a stage
    /// through the startup schedule only.
    pub open spec fn spec_is_startup(&self) -> bool {
        *self is Startup
    }

    /// Whether the label names a startup stage. Systems reach such a stage
    /// through the startup schedule only.
    #[verifier::when_used_as_spec(spec_is_startup)]
    pub fn is_startup(&self) -> (r: bool)
        ensures
            r == self.spec_is_startup(),
    {
        matches!(self, StageLabel::Startup(_))
    }
}

} // verus!
