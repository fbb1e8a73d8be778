//! The plan of systems: which of the library's systems the host is to run,
//! in which schedule, and under which constraints.
//!
//! The library runs nothing by itself. Each `plugin` function enters the
//! systems of its module here, and the host installs what the plan lists.

use vstd::prelude::*;

verus! {

/// The states of the game.
#[derive(Clone, Copy, Debug, PartialEq, Eq, Hash, Structural)]
pub enum Game {
    Loading,
    Gameplay,
}

/// When a system runs.
#[derive(Clone, Copy, Debug, PartialEq, Eq, Hash, Structural)]
pub enum Schedule {
    /// Once per rendered frame.
    Update,
    /// Once per fixed simulation tick.
    FixedUpdate,
    /// Once when the game enters the state.
    OnEnter(Game),
    /// Once when the game leaves the state.
    OnExit(Game),
}

/// The sets that order the systems of one schedule.
#[derive(Clone, Copy, Debug, PartialEq, Eq, Hash, Structural)]
pub enum Systems {
    Input,
    Spawn,
    Update,
}

/// The systems of this library, each named after its function.
#[derive(Clone, Copy, Debug, PartialEq, Eq, Hash, Structural)]
pub enum System {
    KeyboardInput,
    UpdateGrounded,
    Movement,
    StoreVelocity,
    RestoreVelocity,
    SpawnPlayer,
    Steps,
    SpawnSensor,
    Detection,
    GroundUpdate,
    CameraFitCurrentLevel,
    UpdateLevelSelection,
}

/// One entry of the plan.
#[derive(Clone, Copy, Debug, PartialEq, Eq, Structural)]
pub struct Registration {
    pub schedule: Schedule,
    pub system: System,
    /// The set that the system belongs to, if any.
    pub set: Option<Systems>,
    /// The system that must have run before this one in the same pass, if any.
    pub after: Option<System>,
    /// The state outside of which the system is skipped, if any.
    pub run_if: Option<Game>,
}

/// The plan of systems, in the order they were entered.
#[derive(Clone, Debug)]
pub struct App {
    pub systems: Vec<Registration>,
}

/// An entry with a schedule and a system and no constraint.
pub open spec fn plain(schedule: Schedule, system: System) -> Registration {
    Registration { schedule, system, set: None, after: None, run_if: None }
}

/// An entry with a schedule, a system and its set.
pub open spec fn in_set(schedule: Schedule, system: System, set: Systems) -> Registration {
    Registration { schedule, system, set: Some(set), after: None, run_if: None }
}

impl View for App {
    type V = Seq<Registration>;

    open spec fn view(&self) -> Seq<Registration> {
        self.systems@
    }
}

impl App {
    /// A plan without entries.
    pub fn new() -> (app: App)
        ensures
            app@ == Seq::<Registration>::empty(),
    {
        App { systems: Vec::new() }
    }

    /// Enters one system.
    pub fn add_systems(&mut self, registration: Registration)
        ensures
            final(self)@ == old(self)@.push(registration),
    {
        self.systems.push(registration);
    }
}

} // verus!
