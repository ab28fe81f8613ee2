//! The periodic scheduler: when a crawl cycle starts.

use vstd::prelude::*;

verus! {

/// Where the scheduler stands.
#[derive(Debug, Clone, Copy, PartialEq, Eq, Structural)]
pub enum SchedulerState {
    /// Waiting for the next tick.
    Idle,
    /// A tick came while a cycle was still running; the next cycle starts
    /// when it completes.
    Ticking,
    /// A cycle is running.
    CycleRunning,
}

/// What happens to the scheduler.
#[derive(Debug, Clone, Copy, PartialEq, Eq, Structural)]
pub enum SchedulerEvent {
    /// The period has elapsed.
    Tick,
    /// The running cycle has completed all its work.
    CycleDone,
}

/// What the scheduler asks for.
#[derive(Debug, Clone, Copy, PartialEq, Eq, Structural)]
pub enum SchedulerAction {
    /// Start a new cycle now.
    StartCycle,
    /// Do nothing until the next event.
    Wait,
}

/// The next state and action: a tick starts a cycle where none runs, and
/// is held until the running one completes otherwise; cycles never overlap
/// and ticks never queue beyond one.
pub open spec fn next(s: SchedulerState, e: SchedulerEvent) -> (SchedulerState, SchedulerAction) {
    match (s, e) {
        (SchedulerState::Idle, SchedulerEvent::Tick) => (
            SchedulerState::CycleRunning,
            SchedulerAction::StartCycle,
        ),
        (SchedulerState::Idle, SchedulerEvent::CycleDone) => (
            SchedulerState::Idle,
            SchedulerAction::Wait,
        ),
        (SchedulerState::CycleRunning, SchedulerEvent::Tick) => (
            SchedulerState::Ticking,
            SchedulerAction::Wait,
        ),
        (SchedulerState::CycleRunning, SchedulerEvent::CycleDone) => (
            SchedulerState::Idle,
            SchedulerAction::Wait,
        ),
        (SchedulerState::Ticking, SchedulerEvent::Tick) => (
            SchedulerState::Ticking,
            SchedulerAction::Wait,
        ),
        (SchedulerState::Ticking, SchedulerEvent::CycleDone) => (
            SchedulerState::CycleRunning,
            SchedulerAction::StartCycle,
        ),
    }
}

/// Takes the scheduler one event further.
pub fn step(s: SchedulerState, e: SchedulerEvent) -> (r: (SchedulerState, SchedulerAction))
    ensures
        r == next(s, e),
{
    match (s, e) {
        (SchedulerState::Idle, SchedulerEvent::Tick) => (
            SchedulerState::CycleRunning,
            SchedulerAction::StartCycle,
        ),
        (SchedulerState::Idle, SchedulerEvent::CycleDone) => (
            SchedulerState::Idle,
            SchedulerAction::Wait,
        ),
        (SchedulerState::CycleRunning, SchedulerEvent::Tick) => (
            SchedulerState::Ticking,
            SchedulerAction::Wait,
        ),
        (SchedulerState::CycleRunning, SchedulerEvent::CycleDone) => (
            SchedulerState::Idle,
            SchedulerAction::Wait,
        ),
        (SchedulerState::Ticking, SchedulerEvent::Tick) => (
            SchedulerState::Ticking,
            SchedulerAction::Wait,
        ),
        (SchedulerState::Ticking, SchedulerEvent::CycleDone) => (
            SchedulerState::CycleRunning,
            SchedulerAction::StartCycle,
        ),
    }
}

/// A cycle starts only where none is running, and then one is; a running
/// cycle stops counting as running only when it completes.
pub proof fn lemma_cycles_never_overlap(s: SchedulerState, e: SchedulerEvent)
    ensures
        next(s, e).1 == SchedulerAction::StartCycle ==> s != SchedulerState::CycleRunning
            && next(s, e).0 == SchedulerState::CycleRunning,
        s != SchedulerState::Idle && next(s, e).0 == SchedulerState::Idle ==> e
            == SchedulerEvent::CycleDone,
        s != SchedulerState::Idle && e == SchedulerEvent::Tick ==> next(s, e).1
            == SchedulerAction::Wait,
{
}

} // verus!
