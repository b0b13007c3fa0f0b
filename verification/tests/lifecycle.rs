use spyrun::event::EventKind;
use spyrun::supervisor::{
    default_force_flag, on_joined, on_signal, on_started, sentinel_decision, StopSignal,
    SupervisorAction, SupervisorState,
};

#[test]
fn test_sentinel_fires_on_create_and_modify() {
    let paths = vec!["/run/stop.flg".to_string()];
    assert!(sentinel_decision(EventKind::Create, &paths, "/run/stop.flg"));
    assert!(sentinel_decision(EventKind::Modify, &paths, "/run/stop.flg"));
    assert!(!sentinel_decision(EventKind::Remove, &paths, "/run/stop.flg"));
    assert!(!sentinel_decision(EventKind::Access, &paths, "/run/stop.flg"));
}

#[test]
fn test_sentinel_wants_exact_path() {
    let paths = vec!["/run/other.flg".to_string()];
    assert!(!sentinel_decision(EventKind::Create, &paths, "/run/stop.flg"));
    let empty: Vec<String> = vec![];
    assert!(!sentinel_decision(EventKind::Create, &empty, "/run/stop.flg"));
    // The effective path is the last one.
    let two = vec!["/run/stop.flg".to_string(), "/run/other.flg".to_string()];
    assert!(!sentinel_decision(EventKind::Create, &two, "/run/stop.flg"));
}

#[test]
fn test_default_force_flag_path() {
    assert_eq!(default_force_flag("/run/stop.flg"), "/run/stop_force.flg");
    assert_eq!(default_force_flag("stop.flg"), "stop_force.flg");
    assert_eq!(default_force_flag("/run/stop"), "/run/stop_force");
}

#[test]
fn test_graceful_shutdown_sequence() {
    let state = SupervisorState::Initializing;
    let state = on_started(state);
    assert_eq!(state, SupervisorState::Running);
    // Touching the stop sentinel: every dispatcher is signalled and joined.
    let (state, action) = on_signal(state, StopSignal::Stop);
    assert_eq!(state, SupervisorState::Stopping);
    assert_eq!(action, SupervisorAction::SignalAndJoin);
    let state = on_joined(state);
    assert_eq!(state, SupervisorState::Joined);
}

#[test]
fn test_force_exits_immediately() {
    let (state, action) = on_signal(SupervisorState::Running, StopSignal::StopForce);
    assert_eq!(state, SupervisorState::ForceExit);
    assert_eq!(action, SupervisorAction::ExitNow);
}

#[test]
fn test_second_signal_during_stop_forces_exit() {
    let (state, _) = on_signal(SupervisorState::Running, StopSignal::Stop);
    let (state2, action2) = on_signal(state, StopSignal::Stop);
    assert_eq!(state2, SupervisorState::ForceExit);
    assert_eq!(action2, SupervisorAction::ExitNow);
    let (_, action3) = on_signal(state, StopSignal::StopForce);
    assert_eq!(action3, SupervisorAction::ExitNow);
}
