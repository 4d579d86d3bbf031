use radiation_counter_service::device::DeviceOp;
use radiation_counter_service::tasks::{
    Task, TaskAction, TaskEvent, TaskKind, TaskPhase, MAX_POLL_GAP_SECS, POLL_INTERVAL_SECS,
    WATCHDOG_INTERVAL_SECS,
};

#[test]
fn intervals_are_sixty_and_five_seconds() {
    assert_eq!(WATCHDOG_INTERVAL_SECS, 60);
    assert_eq!(POLL_INTERVAL_SECS, 5);
    assert_eq!(MAX_POLL_GAP_SECS, 10);
    assert_eq!(TaskKind::Watchdog.interval(), 60);
    assert_eq!(TaskKind::Poller.interval(), 5);
}

#[test]
fn each_task_has_its_device_operation() {
    assert_eq!(TaskKind::Watchdog.device_op(), DeviceOp::ResetCommsWatchdog);
    assert_eq!(TaskKind::Poller.device_op(), DeviceOp::GetRadiationCount);
}

#[test]
fn started_task_sleeps() {
    let task = Task::start(TaskKind::Watchdog);
    assert_eq!(task, Task { kind: TaskKind::Watchdog, phase: TaskPhase::Sleeping });
    assert!(!task.is_stopped());
}

#[test]
fn watchdog_loop_kicks_then_sleeps_whatever_the_outcome() {
    let mut task = Task::start(TaskKind::Watchdog);
    for _ in 0..3 {
        assert_eq!(
            task.step(TaskEvent::Woke { stop: false }),
            TaskAction::Call(DeviceOp::ResetCommsWatchdog)
        );
        assert_eq!(task.phase, TaskPhase::Calling);
        assert_eq!(task.step(TaskEvent::Finished), TaskAction::Sleep(60));
        assert_eq!(task.phase, TaskPhase::Sleeping);
    }
}

#[test]
fn poller_loop_polls_then_sleeps() {
    let mut task = Task::start(TaskKind::Poller);
    assert_eq!(
        task.step(TaskEvent::Woke { stop: false }),
        TaskAction::Call(DeviceOp::GetRadiationCount)
    );
    assert_eq!(task.step(TaskEvent::Finished), TaskAction::Sleep(5));
    assert_eq!(task, Task::start(TaskKind::Poller));
}

#[test]
fn stop_signal_at_waking_ends_the_task_before_it_takes_the_counter() {
    let mut task = Task::start(TaskKind::Poller);
    assert_eq!(task.step(TaskEvent::Woke { stop: true }), TaskAction::Exit);
    assert!(task.is_stopped());
    assert_eq!(task.step(TaskEvent::Woke { stop: false }), TaskAction::Exit);
    assert_eq!(task.step(TaskEvent::Finished), TaskAction::Exit);
    assert!(task.is_stopped());
}

#[test]
fn operation_under_way_is_awaited_not_started_again() {
    let mut task = Task::start(TaskKind::Poller);
    task.step(TaskEvent::Woke { stop: false });
    assert_eq!(task.step(TaskEvent::Woke { stop: false }), TaskAction::Await);
    assert_eq!(task.step(TaskEvent::Woke { stop: true }), TaskAction::Await);
    assert_eq!(task.phase, TaskPhase::Calling);
    assert_eq!(task.step(TaskEvent::Finished), TaskAction::Sleep(5));
}

#[test]
fn stray_finish_while_sleeping_keeps_the_task_sleeping() {
    let mut task = Task::start(TaskKind::Watchdog);
    assert_eq!(task.step(TaskEvent::Finished), TaskAction::Sleep(60));
    assert_eq!(task.phase, TaskPhase::Sleeping);
}
