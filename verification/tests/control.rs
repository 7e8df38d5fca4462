use force_smith::control::{
    ControlEvent, DebugExecutionState, ExecutionStates, NormalExecutionState, ScheduledWork,
    SimulationConfig, SmoothMovementSetting, VisualizerMode,
};

#[test]
fn session_starts_stopped_in_the_configured_mode() {
    let config = SimulationConfig { initial_mode: VisualizerMode::Debug, smooth_movement_enabled: false };
    let s = config.initial_states();
    assert_eq!(s.mode, VisualizerMode::Debug);
    assert_eq!(s.normal, NormalExecutionState::Stopped);
    assert_eq!(s.debug, DebugExecutionState::Stopped);
    assert_eq!(s.scheduled_work(), ScheduledWork::Idle);
    assert!(!SmoothMovementSetting::from_config(&config).enabled);
    assert!(SmoothMovementSetting::default().enabled);
    assert_eq!(VisualizerMode::default(), VisualizerMode::Normal);
}

#[test]
fn normal_mode_runs_until_stopped_and_then_places_nodes() {
    let mut s = ExecutionStates::initial(VisualizerMode::Normal);
    s.next_states(ControlEvent::PressRun);
    assert_eq!(s.scheduled_work(), ScheduledWork::IterateLayout);
    s.next_states(ControlEvent::PressStep);
    assert_eq!(s.scheduled_work(), ScheduledWork::IterateLayout);
    s.next_states(ControlEvent::PressStop);
    assert_eq!(s.normal, NormalExecutionState::PlacingDestinations);
    assert_eq!(s.scheduled_work(), ScheduledWork::PlaceNodes);
    s.next_states(ControlEvent::NodesPlaced);
    assert_eq!(s, ExecutionStates::initial(VisualizerMode::Normal));
}

#[test]
fn debug_mode_steps_through_one_iteration() {
    let start = ExecutionStates::initial(VisualizerMode::Debug);
    let mut s = start;
    s.next_states(ControlEvent::PressRun);
    assert_eq!(s, start);
    s.next_states(ControlEvent::PressStep);
    assert_eq!(s.scheduled_work(), ScheduledWork::ComputeForces);
    s.next_states(ControlEvent::LayoutComputed);
    assert_eq!(s.scheduled_work(), ScheduledWork::ShowForces);
    s.next_states(ControlEvent::ForcesShown);
    assert_eq!(s.debug, DebugExecutionState::StoppedBeforePositionUpdate);
    assert_eq!(s.scheduled_work(), ScheduledWork::Idle);
    s.next_states(ControlEvent::PressStep);
    assert_eq!(s.scheduled_work(), ScheduledWork::RemoveForces);
    s.next_states(ControlEvent::ForcesRemoved);
    assert_eq!(s, start);
}

#[test]
fn switching_modes_stops_the_running_layout() {
    let mut s = ExecutionStates::initial(VisualizerMode::Normal);
    s.next_states(ControlEvent::PressRun);
    s.next_states(ControlEvent::SelectDebugMode);
    assert_eq!(s, ExecutionStates::initial(VisualizerMode::Debug));
    s.next_states(ControlEvent::PressStep);
    s.next_states(ControlEvent::SelectNormalMode);
    assert_eq!(s, ExecutionStates::initial(VisualizerMode::Normal));
}

#[test]
fn choosing_the_current_mode_keeps_the_run_going() {
    let mut s = ExecutionStates::initial(VisualizerMode::Normal);
    s.next_states(ControlEvent::PressRun);
    let running = s;
    s.next_states(ControlEvent::SelectNormalMode);
    assert_eq!(s, running);
    assert_eq!(s.normal, NormalExecutionState::Running);
    assert_eq!(s.scheduled_work(), ScheduledWork::IterateLayout);

    let mut d = ExecutionStates::initial(VisualizerMode::Debug);
    d.next_states(ControlEvent::PressStep);
    d.next_states(ControlEvent::SelectDebugMode);
    assert_eq!(d.debug, DebugExecutionState::Computing);
    assert_eq!(d.mode, VisualizerMode::Debug);
}

#[test]
fn smooth_movement_checkbox_flips_the_setting() {
    let mut setting = SmoothMovementSetting::default();
    setting.toggle();
    assert!(!setting.enabled);
    setting.toggle();
    assert!(setting.enabled);
}

#[test]
fn reports_of_unscheduled_work_are_ignored() {
    let mut s = ExecutionStates::initial(VisualizerMode::Normal);
    for e in [ControlEvent::LayoutComputed, ControlEvent::ForcesShown, ControlEvent::ForcesRemoved, ControlEvent::NodesPlaced] {
        s.next_states(e);
        assert_eq!(s, ExecutionStates::initial(VisualizerMode::Normal));
    }
}
