use crawler::scheduler::{step, SchedulerAction, SchedulerEvent, SchedulerState};

#[test]
fn tick_when_idle_starts_cycle() {
    assert_eq!(
        step(SchedulerState::Idle, SchedulerEvent::Tick),
        (SchedulerState::CycleRunning, SchedulerAction::StartCycle)
    );
}

#[test]
fn tick_during_cycle_waits_for_it() {
    let (s, a) = step(SchedulerState::CycleRunning, SchedulerEvent::Tick);
    assert_eq!((s, a), (SchedulerState::Ticking, SchedulerAction::Wait));
    let (s, a) = step(s, SchedulerEvent::Tick);
    assert_eq!((s, a), (SchedulerState::Ticking, SchedulerAction::Wait));
    let (s, a) = step(s, SchedulerEvent::CycleDone);
    assert_eq!((s, a), (SchedulerState::CycleRunning, SchedulerAction::StartCycle));
}

#[test]
fn completed_cycle_returns_to_idle() {
    assert_eq!(
        step(SchedulerState::CycleRunning, SchedulerEvent::CycleDone),
        (SchedulerState::Idle, SchedulerAction::Wait)
    );
    assert_eq!(
        step(SchedulerState::Idle, SchedulerEvent::CycleDone),
        (SchedulerState::Idle, SchedulerAction::Wait)
    );
}
