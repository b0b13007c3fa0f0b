//! Lifecycle coordination: which filesystem events on the sentinel files
//! count as shutdown signals, where the force sentinel lives by default,
//! and the supervisor's state machine from startup through graceful stop to
//! forced exit.

use vstd::prelude::*;

use crate::event::EventKind;
use crate::pathinfo::{sibling_of, sibling_path};
use crate::strutil::str_eq;

verus! {

/// The default force sentinel `{stem}_force.{ext}` beside the stop
/// sentinel.
pub open spec fn force_flag_of(s: Seq<char>) -> Seq<char> {
    sibling_of(s, "_force"@)
}

/// Where the force sentinel lives when the configuration names none.
pub fn default_force_flag(stop_flg: &str) -> (r: String)
    ensures
        r@ == force_flag_of(stop_flg@),
{
    sibling_path(stop_flg, "_force")
}

/// Whether a watcher event fires a sentinel: a Create or Modify whose
/// effective (last) path is the sentinel itself.  An event with no paths
/// fires nothing.
pub open spec fn sentinel_fires(kind: EventKind, paths: Seq<Seq<char>>, sentinel: Seq<char>) -> bool {
    &&& kind == EventKind::Create || kind == EventKind::Modify
    &&& paths.len() > 0
    &&& paths.last() == sentinel
}

/// The sentinel watcher's decision for one event.
pub fn sentinel_decision(kind: EventKind, paths: &Vec<String>, sentinel: &str) -> (r: bool)
    ensures
        r == sentinel_fires(kind, paths.deep_view(), sentinel@),
{
    let fires_kind = match kind {
        EventKind::Create => true,
        EventKind::Modify => true,
        _ => false,
    };
    if !fires_kind {
        return false;
    }
    let n = paths.len();
    if n == 0 {
        return false;
    }
    proof {
        assert(paths.deep_view().last() == paths@[n - 1]@);
    }
    str_eq(paths[n - 1].as_str(), sentinel)
}

/// The shutdown signals the sentinel watchers deliver.
#[derive(Debug, Clone, Copy, PartialEq, Eq, Structural)]
pub enum StopSignal {
    Stop,
    StopForce,
}

/// The supervisor's lifecycle.
#[derive(Debug, Clone, Copy, PartialEq, Eq, Structural)]
pub enum SupervisorState {
    /// Loading configuration and starting spies.
    Initializing,
    /// All spies running, waiting on the sentinel channel.
    Running,
    /// A graceful stop is under way: spies signalled, joins pending.
    Stopping,
    /// Every spy joined after a graceful stop.
    Joined,
    /// The process exits immediately with code 1.
    ForceExit,
}

/// What the supervisor does on a transition.
#[derive(Debug, Clone, Copy, PartialEq, Eq, Structural)]
pub enum SupervisorAction {
    /// Send Stop to every spy dispatcher, then join them; in-flight
    /// commands keep running.
    SignalAndJoin,
    /// Exit the process with code 1 without waiting.
    ExitNow,
    /// Nothing to do.
    Ignore,
}

/// The state after a signal, and the action it demands: a first stop begins
/// the graceful shutdown, a force stop — or any signal once a stop has
/// begun — exits immediately.
pub fn on_signal(state: SupervisorState, sig: StopSignal) -> (r: (SupervisorState, SupervisorAction))
    ensures
        state == SupervisorState::Running && sig == StopSignal::Stop
            ==> r == (SupervisorState::Stopping, SupervisorAction::SignalAndJoin),
        state == SupervisorState::Running && sig == StopSignal::StopForce
            ==> r == (SupervisorState::ForceExit, SupervisorAction::ExitNow),
        state == SupervisorState::Stopping
            ==> r == (SupervisorState::ForceExit, SupervisorAction::ExitNow),
        state == SupervisorState::ForceExit
            ==> r == (SupervisorState::ForceExit, SupervisorAction::ExitNow),
        state == SupervisorState::Initializing || state == SupervisorState::Joined
            ==> r == (state, SupervisorAction::Ignore),
{
    match state {
        SupervisorState::Running => match sig {
            StopSignal::Stop => (SupervisorState::Stopping, SupervisorAction::SignalAndJoin),
            StopSignal::StopForce => (SupervisorState::ForceExit, SupervisorAction::ExitNow),
        },
        SupervisorState::Stopping => (SupervisorState::ForceExit, SupervisorAction::ExitNow),
        SupervisorState::ForceExit => (SupervisorState::ForceExit, SupervisorAction::ExitNow),
        SupervisorState::Initializing => (state, SupervisorAction::Ignore),
        SupervisorState::Joined => (state, SupervisorAction::Ignore),
    }
}

/// All spies started: the supervisor begins waiting on the sentinels.
pub fn on_started(state: SupervisorState) -> (r: SupervisorState)
    ensures
        state == SupervisorState::Initializing ==> r == SupervisorState::Running,
        state != SupervisorState::Initializing ==> r == state,
{
    match state {
        SupervisorState::Initializing => SupervisorState::Running,
        _ => state,
    }
}

/// Every spy joined after a graceful stop: the process may exit normally.
pub fn on_joined(state: SupervisorState) -> (r: SupervisorState)
    ensures
        state == SupervisorState::Stopping ==> r == SupervisorState::Joined,
        state != SupervisorState::Stopping ==> r == state,
{
    match state {
        SupervisorState::Stopping => SupervisorState::Joined,
        _ => state,
    }
}

} // verus!
