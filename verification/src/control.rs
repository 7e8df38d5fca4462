//! The execution control of the visualizer.
//!
//! The visualizer runs in one of two modes. In normal mode the layout
//! iterates every frame while it is running; stopping it first places every
//! node at its destination. In debug mode the user steps through one
//! iteration at a time: the forces are computed and shown as arrows, and a
//! second step removes them and moves the nodes.
//!
//! The frame loop performs the work that `scheduled_work` names for the
//! current state and reports back with an event; the user's clicks are
//! events too. `next_states` is the whole state machine.
use vstd::prelude::*;

verus! {

/// The two ways the visualizer runs a layout.
#[derive(Clone, Copy, PartialEq, Eq, Debug, Structural)]
pub enum VisualizerMode {
    Debug,
    Normal,
}

impl Default for VisualizerMode {
    /// The visualizer starts in normal mode unless configured otherwise.
    fn default() -> (m: Self)
        ensures
            m == VisualizerMode::Normal,
    {
        VisualizerMode::Normal
    }
}

/// Where a normal-mode run stands.
#[derive(Clone, Copy, PartialEq, Eq, Debug, Structural)]
pub enum NormalExecutionState {
    Stopped,
    Running,
    /// Stopping: the nodes are put at their destinations at once.
    PlacingDestinations,
}

/// Where a debug-mode step stands.
#[derive(Clone, Copy, PartialEq, Eq, Debug, Structural)]
pub enum DebugExecutionState {
    Stopped,
    Computing,
    ShowingForces,
    StoppedBeforePositionUpdate,
    RemovingForces,
}

/// The mode and the execution state of each mode.
#[derive(Clone, Copy, PartialEq, Eq, Debug, Structural)]
pub struct ExecutionStates {
    pub mode: VisualizerMode,
    pub normal: NormalExecutionState,
    pub debug: DebugExecutionState,
}

/// What can happen to the execution states: a click in the control panel,
/// or the report that a piece of scheduled work is finished.
#[derive(Clone, Copy, PartialEq, Eq, Debug, Structural)]
pub enum ControlEvent {
    /// The "Normal Mode" radio button was clicked.
    SelectNormalMode,
    /// The "Debug Mode" radio button was clicked.
    SelectDebugMode,
    /// The run button of normal mode was clicked.
    PressRun,
    /// The stop button of normal mode was clicked.
    PressStop,
    /// The step button of debug mode was clicked.
    PressStep,
    /// The debug iteration has been computed.
    LayoutComputed,
    /// The force arrows have been drawn.
    ForcesShown,
    /// The force arrows have been removed.
    ForcesRemoved,
    /// The nodes have been put at their destinations.
    NodesPlaced,
}

/// The work the frame loop does in a state.
#[derive(Clone, Copy, PartialEq, Eq, Debug, Structural)]
pub enum ScheduledWork {
    /// Nothing but drawing.
    Idle,
    /// One layout iteration, then each node gets its new position as its
    /// destination.
    IterateLayout,
    /// Every node is put at its destination at once.
    PlaceNodes,
    /// Nodes still moving are put at their destinations, then one debug
    /// iteration computes the forces and the new positions.
    ComputeForces,
    /// The force of each step and the resulting displacement are drawn as
    /// arrows.
    ShowForces,
    /// The arrows are removed and each node gets its new position as its
    /// destination.
    RemoveForces,
}

/// The states the visualizer starts in: the configured mode, both
/// execution states stopped.
pub open spec fn initial_spec(mode: VisualizerMode) -> ExecutionStates {
    ExecutionStates { mode, normal: NormalExecutionState::Stopped, debug: DebugExecutionState::Stopped }
}

/// The work of a state: normal mode iterates while running and places the
/// nodes while stopping; debug mode computes, shows and removes forces in
/// the states named after them; every other state does nothing.
pub open spec fn work_spec(s: ExecutionStates) -> ScheduledWork {
    match s.mode {
        VisualizerMode::Normal => match s.normal {
            NormalExecutionState::Running => ScheduledWork::IterateLayout,
            NormalExecutionState::PlacingDestinations => ScheduledWork::PlaceNodes,
            NormalExecutionState::Stopped => ScheduledWork::Idle,
        },
        VisualizerMode::Debug => match s.debug {
            DebugExecutionState::Computing => ScheduledWork::ComputeForces,
            DebugExecutionState::ShowingForces => ScheduledWork::ShowForces,
            DebugExecutionState::RemovingForces => ScheduledWork::RemoveForces,
            _ => ScheduledWork::Idle,
        },
    }
}

/// Choosing mode `mode`: a change of mode stops both execution states;
/// choosing the mode already shown changes nothing.
pub open spec fn choose_mode(s: ExecutionStates, mode: VisualizerMode) -> ExecutionStates {
    if s.mode == mode {
        s
    } else {
        initial_spec(mode)
    }
}

/// The state machine. Changing the mode stops both modes; choosing the
/// mode already shown leaves everything as it is. The buttons act only where the panel shows them: run in normal
/// mode while stopped or stopping, stop while running, step in debug mode
/// while stopped (start computing) or stopped before the position update
/// (remove the forces). A finished piece of work moves on only from the
/// state that scheduled it: computing to showing forces, showing forces to
/// stopped before the update, removing forces to stopped, placing nodes to
/// stopped. Anything else leaves the states as they are.
pub open spec fn step_spec(s: ExecutionStates, e: ControlEvent) -> ExecutionStates {
    match e {
        ControlEvent::SelectNormalMode => choose_mode(s, VisualizerMode::Normal),
        ControlEvent::SelectDebugMode => choose_mode(s, VisualizerMode::Debug),
        ControlEvent::PressRun => if s.mode == VisualizerMode::Normal && s.normal != NormalExecutionState::Running {
            ExecutionStates { normal: NormalExecutionState::Running, ..s }
        } else {
            s
        },
        ControlEvent::PressStop => if s.mode == VisualizerMode::Normal && s.normal == NormalExecutionState::Running {
            ExecutionStates { normal: NormalExecutionState::PlacingDestinations, ..s }
        } else {
            s
        },
        ControlEvent::PressStep => if s.mode == VisualizerMode::Debug && s.debug == DebugExecutionState::Stopped {
            ExecutionStates { debug: DebugExecutionState::Computing, ..s }
        } else if s.mode == VisualizerMode::Debug && s.debug == DebugExecutionState::StoppedBeforePositionUpdate {
            ExecutionStates { debug: DebugExecutionState::RemovingForces, ..s }
        } else {
            s
        },
        ControlEvent::LayoutComputed => if work_spec(s) == ScheduledWork::ComputeForces {
            ExecutionStates { debug: DebugExecutionState::ShowingForces, ..s }
        } else {
            s
        },
        ControlEvent::ForcesShown => if work_spec(s) == ScheduledWork::ShowForces {
            ExecutionStates { debug: DebugExecutionState::StoppedBeforePositionUpdate, ..s }
        } else {
            s
        },
        ControlEvent::ForcesRemoved => if work_spec(s) == ScheduledWork::RemoveForces {
            ExecutionStates { debug: DebugExecutionState::Stopped, ..s }
        } else {
            s
        },
        ControlEvent::NodesPlaced => if work_spec(s) == ScheduledWork::PlaceNodes {
            ExecutionStates { normal: NormalExecutionState::Stopped, ..s }
        } else {
            s
        },
    }
}

impl ExecutionStates {
    /// The states the visualizer starts in for the configured mode.
    pub fn initial(mode: VisualizerMode) -> (s: Self)
        ensures
            s == initial_spec(mode),
    {
        ExecutionStates { mode, normal: NormalExecutionState::Stopped, debug: DebugExecutionState::Stopped }
    }

    /// The work the frame loop does in this state.
    pub fn scheduled_work(&self) -> (w: ScheduledWork)
        ensures
            w == work_spec(*self),
    {
        match self.mode {
            VisualizerMode::Normal => match self.normal {
                NormalExecutionState::Running => ScheduledWork::IterateLayout,
                NormalExecutionState::PlacingDestinations => ScheduledWork::PlaceNodes,
                NormalExecutionState::Stopped => ScheduledWork::Idle,
            },
            VisualizerMode::Debug => match self.debug {
                DebugExecutionState::Computing => ScheduledWork::ComputeForces,
                DebugExecutionState::ShowingForces => ScheduledWork::ShowForces,
                DebugExecutionState::RemovingForces => ScheduledWork::RemoveForces,
                _ => ScheduledWork::Idle,
            },
        }
    }

    /// Applies one event to the states.
    pub fn next_states(&mut self, event: ControlEvent)
        ensures
            *final(self) == step_spec(*old(self), event),
    {
        let work = self.scheduled_work();
        match event {
            ControlEvent::SelectNormalMode => {
                if self.mode != VisualizerMode::Normal {
                    *self = ExecutionStates::initial(VisualizerMode::Normal);
                }
            },
            ControlEvent::SelectDebugMode => {
                if self.mode != VisualizerMode::Debug {
                    *self = ExecutionStates::initial(VisualizerMode::Debug);
                }
            },
            ControlEvent::PressRun => {
                if self.mode == VisualizerMode::Normal && self.normal != NormalExecutionState::Running {
                    self.normal = NormalExecutionState::Running;
                }
            },
            ControlEvent::PressStop => {
                if self.mode == VisualizerMode::Normal && self.normal == NormalExecutionState::Running {
                    self.normal = NormalExecutionState::PlacingDestinations;
                }
            },
            ControlEvent::PressStep => {
                if self.mode == VisualizerMode::Debug {
                    if self.debug == DebugExecutionState::Stopped {
                        self.debug = DebugExecutionState::Computing;
                    } else if self.debug == DebugExecutionState::StoppedBeforePositionUpdate {
                        self.debug = DebugExecutionState::RemovingForces;
                    }
                }
            },
            ControlEvent::LayoutComputed => {
                if work == ScheduledWork::ComputeForces {
                    self.debug = DebugExecutionState::ShowingForces;
                }
            },
            ControlEvent::ForcesShown => {
                if work == ScheduledWork::ShowForces {
                    self.debug = DebugExecutionState::StoppedBeforePositionUpdate;
                }
            },
            ControlEvent::ForcesRemoved => {
                if work == ScheduledWork::RemoveForces {
                    self.debug = DebugExecutionState::Stopped;
                }
            },
            ControlEvent::NodesPlaced => {
                if work == ScheduledWork::PlaceNodes {
                    self.normal = NormalExecutionState::Stopped;
                }
            },
        }
    }
}


/// The part of the visualizer's configuration that decides how a session
/// starts.
#[derive(Clone, Copy)]
pub struct SimulationConfig {
    pub initial_mode: VisualizerMode,
    pub smooth_movement_enabled: bool,
}

/// Whether nodes glide to their destinations or jump there.
pub struct SmoothMovementSetting {
    pub enabled: bool,
}

impl Default for SmoothMovementSetting {
    /// Smooth movement is on unless configured otherwise.
    fn default() -> (s: Self)
        ensures
            s.enabled,
    {
        SmoothMovementSetting { enabled: true }
    }
}

impl SmoothMovementSetting {
    /// A click on the "Smooth Movement" checkbox of the control panel flips
    /// the setting.
    pub fn toggle(&mut self)
        ensures
            final(self).enabled == !old(self).enabled,
    {
        self.enabled = !self.enabled;
    }

    /// The setting a session starts with.
    pub fn from_config(config: &SimulationConfig) -> (s: Self)
        ensures
            s.enabled == config.smooth_movement_enabled,
    {
        SmoothMovementSetting { enabled: config.smooth_movement_enabled }
    }
}

impl SimulationConfig {
    /// The execution states a session starts in: the configured mode, both
    /// execution states stopped.
    pub fn initial_states(&self) -> (s: ExecutionStates)
        ensures
            s == initial_spec(self.initial_mode),
    {
        match self.initial_mode {
            VisualizerMode::Debug => ExecutionStates::initial(VisualizerMode::Debug),
            VisualizerMode::Normal => ExecutionStates::initial(VisualizerMode::Normal),
        }
    }
}

/// Only the current mode can be anywhere but stopped.
pub open spec fn inactive_mode_stopped(s: ExecutionStates) -> bool {
    &&& s.mode == VisualizerMode::Normal ==> s.debug == DebugExecutionState::Stopped
    &&& s.mode == VisualizerMode::Debug ==> s.normal == NormalExecutionState::Stopped
}

/// Changing the mode gives the new mode with both execution states stopped;
/// choosing the mode already shown leaves the states as they are, so a run
/// in progress goes on.
pub proof fn lemma_mode_choice_stops_execution(s: ExecutionStates)
    ensures
        s.mode != VisualizerMode::Normal ==> step_spec(s, ControlEvent::SelectNormalMode)
            == initial_spec(VisualizerMode::Normal),
        s.mode == VisualizerMode::Normal ==> step_spec(s, ControlEvent::SelectNormalMode) == s,
        s.mode != VisualizerMode::Debug ==> step_spec(s, ControlEvent::SelectDebugMode)
            == initial_spec(VisualizerMode::Debug),
        s.mode == VisualizerMode::Debug ==> step_spec(s, ControlEvent::SelectDebugMode) == s,
{
}

/// The mode that is not shown never runs: it is stopped at the start and
/// stays stopped whatever happens, so at most one mode has work scheduled.
pub proof fn lemma_inactive_mode_stays_stopped(s: ExecutionStates, e: ControlEvent)
    requires
        inactive_mode_stopped(s),
    ensures
        inactive_mode_stopped(initial_spec(s.mode)),
        inactive_mode_stopped(step_spec(s, e)),
{
}

/// A debug step goes round: from stopped, a click computes the forces, which
/// are then shown; after a second click they are removed and the mode is
/// stopped again. Each state on the way schedules its own work.
pub proof fn lemma_debug_step_cycle(s: ExecutionStates)
    requires
        s.mode == VisualizerMode::Debug,
        s.debug == DebugExecutionState::Stopped,
    ensures
        ({
            let s1 = step_spec(s, ControlEvent::PressStep);
            let s2 = step_spec(s1, ControlEvent::LayoutComputed);
            let s3 = step_spec(s2, ControlEvent::ForcesShown);
            let s4 = step_spec(s3, ControlEvent::PressStep);
            let s5 = step_spec(s4, ControlEvent::ForcesRemoved);
            &&& work_spec(s) == ScheduledWork::Idle
            &&& work_spec(s1) == ScheduledWork::ComputeForces
            &&& work_spec(s2) == ScheduledWork::ShowForces
            &&& s3.debug == DebugExecutionState::StoppedBeforePositionUpdate
            &&& work_spec(s3) == ScheduledWork::Idle
            &&& work_spec(s4) == ScheduledWork::RemoveForces
            &&& s5 == s
        }),
{
}

/// A normal run goes round: run iterates every frame until stopped; stopping
/// first places the nodes, then the mode is stopped again.
pub proof fn lemma_normal_run_cycle(s: ExecutionStates)
    requires
        s.mode == VisualizerMode::Normal,
        s.normal == NormalExecutionState::Stopped,
    ensures
        ({
            let s1 = step_spec(s, ControlEvent::PressRun);
            let s2 = step_spec(s1, ControlEvent::PressStop);
            let s3 = step_spec(s2, ControlEvent::NodesPlaced);
            &&& work_spec(s) == ScheduledWork::Idle
            &&& work_spec(s1) == ScheduledWork::IterateLayout
            &&& step_spec(s1, ControlEvent::PressRun) == s1
            &&& work_spec(s2) == ScheduledWork::PlaceNodes
            &&& s3 == s
        }),
{
}

/// A report of finished work that was not scheduled changes nothing.
pub proof fn lemma_unscheduled_reports_ignored(s: ExecutionStates)
    ensures
        work_spec(s) != ScheduledWork::ComputeForces ==> step_spec(s, ControlEvent::LayoutComputed) == s,
        work_spec(s) != ScheduledWork::ShowForces ==> step_spec(s, ControlEvent::ForcesShown) == s,
        work_spec(s) != ScheduledWork::RemoveForces ==> step_spec(s, ControlEvent::ForcesRemoved) == s,
        work_spec(s) != ScheduledWork::PlaceNodes ==> step_spec(s, ControlEvent::NodesPlaced) == s,
{
}

/// The run button of normal mode starts a run from every state but a run:
/// from stopped and from stopping alike the normal state becomes running and
/// the layout iterates, nothing else changes. While running, or in debug
/// mode, it changes nothing.
pub proof fn lemma_run_button(s: ExecutionStates)
    ensures
        s.mode == VisualizerMode::Normal && s.normal != NormalExecutionState::Running ==> {
            let t = step_spec(s, ControlEvent::PressRun);
            &&& t.normal == NormalExecutionState::Running
            &&& t.mode == s.mode
            &&& t.debug == s.debug
            &&& work_spec(t) == ScheduledWork::IterateLayout
        },
        s.mode != VisualizerMode::Normal || s.normal == NormalExecutionState::Running
            ==> step_spec(s, ControlEvent::PressRun) == s,
{
}

/// The stop button of normal mode acts only on a run, which starts placing
/// the nodes at their destinations; elsewhere it changes nothing.
pub proof fn lemma_stop_button(s: ExecutionStates)
    ensures
        s.mode == VisualizerMode::Normal && s.normal == NormalExecutionState::Running ==> {
            let t = step_spec(s, ControlEvent::PressStop);
            &&& t.normal == NormalExecutionState::PlacingDestinations
            &&& t.mode == s.mode
            &&& t.debug == s.debug
            &&& work_spec(t) == ScheduledWork::PlaceNodes
        },
        !(s.mode == VisualizerMode::Normal && s.normal == NormalExecutionState::Running)
            ==> step_spec(s, ControlEvent::PressStop) == s,
{
}

/// The step button of debug mode starts computing the forces when stopped,
/// starts removing them when stopped before the position update, and
/// changes nothing anywhere else.
pub proof fn lemma_step_button(s: ExecutionStates)
    ensures
        s.mode == VisualizerMode::Debug && s.debug == DebugExecutionState::Stopped ==> {
            let t = step_spec(s, ControlEvent::PressStep);
            &&& t.debug == DebugExecutionState::Computing
            &&& t.mode == s.mode
            &&& t.normal == s.normal
        },
        s.mode == VisualizerMode::Debug && s.debug == DebugExecutionState::StoppedBeforePositionUpdate ==> {
            let t = step_spec(s, ControlEvent::PressStep);
            &&& t.debug == DebugExecutionState::RemovingForces
            &&& t.mode == s.mode
            &&& t.normal == s.normal
        },
        !(s.mode == VisualizerMode::Debug && (s.debug == DebugExecutionState::Stopped
            || s.debug == DebugExecutionState::StoppedBeforePositionUpdate))
            ==> step_spec(s, ControlEvent::PressStep) == s,
{
}

/// A report of the work that is scheduled moves on: computed forces are
/// shown, shown forces wait for the user, removed forces stop the step,
/// placed nodes stop the run. The other mode and the mode itself stay.
pub proof fn lemma_scheduled_reports_advance(s: ExecutionStates)
    ensures
        s.mode == VisualizerMode::Debug && s.debug == DebugExecutionState::Computing ==> step_spec(
            s,
            ControlEvent::LayoutComputed,
        ) == (ExecutionStates { debug: DebugExecutionState::ShowingForces, ..s }),
        s.mode == VisualizerMode::Debug && s.debug == DebugExecutionState::ShowingForces ==> step_spec(
            s,
            ControlEvent::ForcesShown,
        ) == (ExecutionStates { debug: DebugExecutionState::StoppedBeforePositionUpdate, ..s }),
        s.mode == VisualizerMode::Debug && s.debug == DebugExecutionState::RemovingForces ==> step_spec(
            s,
            ControlEvent::ForcesRemoved,
        ) == (ExecutionStates { debug: DebugExecutionState::Stopped, ..s }),
        s.mode == VisualizerMode::Normal && s.normal == NormalExecutionState::PlacingDestinations ==> step_spec(
            s,
            ControlEvent::NodesPlaced,
        ) == (ExecutionStates { normal: NormalExecutionState::Stopped, ..s }),
{
}

} // verus!
