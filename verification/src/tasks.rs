//! The two background tasks as step functions: the watchdog task, which
//! re-arms the counter's communications watchdog every sixty seconds, and
//! the poller task, which reads the counts every five seconds.
//!
//! A task sleeps, wakes, looks at the stop signal, talks to the counter once
//! and sleeps again. What to do next is decided here; the sleeping and the
//! talking are done by whoever drives the task.

use crate::device::DeviceOp;
use crate::window::{after_ticks, swaps_during, Aggregator, WINDOW_SECS};
use vstd::prelude::*;

verus! {

/// Seconds between two kicks of the communications watchdog.
pub const WATCHDOG_INTERVAL_SECS: u64 = 60;

/// Seconds between two polls of the counts.
pub const POLL_INTERVAL_SECS: u64 = 5;

/// The longest time between two polls that still counts as regular
/// polling: a poll may come late by one interval.
pub const MAX_POLL_GAP_SECS: u64 = 10;

/// Which of the two background tasks.
#[derive(Clone, Copy, Debug, PartialEq, Eq, Structural)]
pub enum TaskKind {
    /// Re-arms the communications watchdog
    Watchdog,
    /// Polls the counts
    Poller,
}

/// Where a task stands in its loop.
#[derive(Clone, Copy, Debug, PartialEq, Eq, Structural)]
pub enum TaskPhase {
    /// Between two ticks, not talking to the counter
    Sleeping,
    /// One device operation is under way
    Calling,
    /// The task has ended and does nothing more
    Stopped,
}

/// What the driver of a task reports to it.
#[derive(Clone, Copy, Debug, PartialEq, Eq, Structural)]
pub enum TaskEvent {
    /// The sleep is over; `stop` is the stop signal as it stands now
    Woke { stop: bool },
    /// The device operation is over and the counter has been given back
    Finished,
}

/// What the driver of a task is to do next.
#[derive(Clone, Copy, Debug, PartialEq, Eq, Structural)]
pub enum TaskAction {
    /// Sleep for so many seconds, then report `Woke`
    Sleep(u64),
    /// Take the counter, run the operation, give the counter back, then
    /// report `Finished`
    Call(DeviceOp),
    /// Nothing new: the operation under way is still awaited
    Await,
    /// Leave the loop
    Exit,
}

impl TaskKind {
    /// Seconds that the task sleeps between two ticks.
    pub open spec fn spec_interval(self) -> u64 {
        match self {
            TaskKind::Watchdog => WATCHDOG_INTERVAL_SECS,
            TaskKind::Poller => POLL_INTERVAL_SECS,
        }
    }

    /// The device operation that the task runs at each tick.
    pub open spec fn spec_device_op(self) -> DeviceOp {
        match self {
            TaskKind::Watchdog => DeviceOp::ResetCommsWatchdog,
            TaskKind::Poller => DeviceOp::GetRadiationCount,
        }
    }

    /// Seconds that the task sleeps between two ticks.
    #[verifier::when_used_as_spec(spec_interval)]
    pub fn interval(self) -> (seconds: u64)
        ensures
            seconds == self.spec_interval(),
    {
        match self {
            TaskKind::Watchdog => WATCHDOG_INTERVAL_SECS,
            TaskKind::Poller => POLL_INTERVAL_SECS,
        }
    }

    /// The device operation that the task runs at each tick.
    #[verifier::when_used_as_spec(spec_device_op)]
    pub fn device_op(self) -> (op: DeviceOp)
        ensures
            op == self.spec_device_op(),
    {
        match self {
            TaskKind::Watchdog => DeviceOp::ResetCommsWatchdog,
            TaskKind::Poller => DeviceOp::GetRadiationCount,
        }
    }
}

/// The phase that follows `phase` on `event`.
///
/// A sleeping task that wakes starts its operation, unless it is told to
/// stop, and then it ends. A task whose operation is finished sleeps again,
/// however the operation went. Anything else leaves the phase as it is.
pub open spec fn phase_after(phase: TaskPhase, event: TaskEvent) -> TaskPhase {
    match (phase, event) {
        (TaskPhase::Sleeping, TaskEvent::Woke { stop }) => if stop {
            TaskPhase::Stopped
        } else {
            TaskPhase::Calling
        },
        (TaskPhase::Calling, TaskEvent::Finished) => TaskPhase::Sleeping,
        _ => phase,
    }
}

/// What a task of `kind` in `phase` has its driver do on `event`.
pub open spec fn action_on(kind: TaskKind, phase: TaskPhase, event: TaskEvent) -> TaskAction {
    match phase_after(phase, event) {
        TaskPhase::Sleeping => TaskAction::Sleep(kind.spec_interval()),
        TaskPhase::Calling => if phase is Sleeping {
            TaskAction::Call(kind.spec_device_op())
        } else {
            TaskAction::Await
        },
        TaskPhase::Stopped => TaskAction::Exit,
    }
}

/// One background task.
#[derive(Clone, Copy, Debug, PartialEq, Eq, Structural)]
pub struct Task {
    /// Which task this is
    pub kind: TaskKind,
    /// Where it stands in its loop
    pub phase: TaskPhase,
}

impl Task {
    /// A task of `kind` that has just been started: it sleeps one interval
    /// before its first tick.
    pub open spec fn started(kind: TaskKind) -> Task {
        Task { kind, phase: TaskPhase::Sleeping }
    }

    /// The task after `event`.
    pub open spec fn after(self, event: TaskEvent) -> Task {
        Task { kind: self.kind, phase: phase_after(self.phase, event) }
    }

    /// Starts a task of `kind`. The driver first sleeps `kind.interval()`
    /// seconds.
    pub fn start(kind: TaskKind) -> (task: Task)
        ensures
            task == Task::started(kind),
    {
        Task { kind, phase: TaskPhase::Sleeping }
    }

    /// Takes `event` and says what the driver is to do next.
    pub fn step(&mut self, event: TaskEvent) -> (action: TaskAction)
        ensures
            *final(self) == old(self).after(event),
            action == action_on(old(self).kind, old(self).phase, event),
    {
        match self.phase {
            TaskPhase::Sleeping => match event {
                TaskEvent::Woke { stop } => {
                    if stop {
                        self.phase = TaskPhase::Stopped;
                        TaskAction::Exit
                    } else {
                        self.phase = TaskPhase::Calling;
                        TaskAction::Call(self.kind.device_op())
                    }
                },
                TaskEvent::Finished => TaskAction::Sleep(self.kind.interval()),
            },
            TaskPhase::Calling => match event {
                TaskEvent::Finished => {
                    self.phase = TaskPhase::Sleeping;
                    TaskAction::Sleep(self.kind.interval())
                },
                TaskEvent::Woke { stop: _ } => TaskAction::Await,
            },
            TaskPhase::Stopped => TaskAction::Exit,
        }
    }

    /// Whether the task has ended.
    pub fn is_stopped(&self) -> (stopped: bool)
        ensures
            stopped == (self.phase is Stopped),
    {
        match self.phase {
            TaskPhase::Stopped => true,
            _ => false,
        }
    }
}

/// The phase of a task after all of `events`, in order.
pub open spec fn phase_after_all(phase: TaskPhase, events: Seq<TaskEvent>) -> TaskPhase
    decreases events.len(),
{
    if events.len() == 0 {
        phase
    } else {
        phase_after(phase_after_all(phase, events.drop_last()), events.last())
    }
}

/// A task never sleeps with the counter in hand, and never takes it without
/// having looked at the stop signal. It is told to sleep only when no
/// operation of its own is under way; it is told to run an operation only on
/// waking from a sleep with the stop signal down, and then the operation of
/// its kind; it is told to leave when the stop signal is up at waking, or
/// when it had ended before.
pub proof fn lemma_task_discipline(kind: TaskKind, phase: TaskPhase, event: TaskEvent)
    ensures
        action_on(kind, phase, event) is Sleep ==> phase_after(phase, event) is Sleeping,
        action_on(kind, phase, event) is Sleep ==> action_on(kind, phase, event)
            == TaskAction::Sleep(kind.spec_interval()),
        action_on(kind, phase, event) is Call <==> phase is Sleeping && event == (TaskEvent::Woke {
            stop: false,
        }),
        action_on(kind, phase, event) is Call ==> action_on(kind, phase, event) == TaskAction::Call(
            kind.spec_device_op(),
        ) && phase_after(phase, event) is Calling,
        action_on(kind, phase, event) is Exit <==> phase is Stopped || (phase is Sleeping && event
            == (TaskEvent::Woke { stop: true })),
        action_on(kind, phase, event) is Await <==> phase is Calling && event is Woke,
{
}

/// A bad tick does not end the loop. The report that an operation is
/// finished carries no outcome: whether the counter answered or not, the
/// task sleeps one interval and ticks again.
pub proof fn lemma_task_goes_on_after_any_outcome(kind: TaskKind)
    ensures
        phase_after(TaskPhase::Calling, TaskEvent::Finished) is Sleeping,
        action_on(kind, TaskPhase::Calling, TaskEvent::Finished) == TaskAction::Sleep(
            kind.spec_interval(),
        ),
        phase_after(TaskPhase::Sleeping, TaskEvent::Woke { stop: false }) is Calling,
{
}

/// A task that has ended stays ended, and only the stop signal ends one.
pub proof fn lemma_task_ends_on_stop_only(phase: TaskPhase, events: Seq<TaskEvent>)
    ensures
        phase is Stopped ==> phase_after_all(phase, events) is Stopped,
        (forall|i: int| 0 <= i < events.len() ==> events[i] != (TaskEvent::Woke { stop: true }))
            && !(phase is Stopped) ==> !(phase_after_all(phase, events) is Stopped),
    decreases events.len(),
{
    if events.len() > 0 {
        lemma_task_ends_on_stop_only(phase, events.drop_last());
    }
}

/// Whether `ticks` are the times of regular polling that began at `start`:
/// in order, the first at most `MAX_POLL_GAP_SECS` after `start`, each at
/// most `MAX_POLL_GAP_SECS` after the one before.
pub open spec fn regular_polling(start: u64, ticks: Seq<u64>) -> bool {
    &&& ticks.len() > 0
    &&& start <= ticks[0] <= start + MAX_POLL_GAP_SECS
    &&& forall|i: int| 0 <= i < ticks.len() - 1 ==> ticks[i] <= #[trigger] ticks[i + 1] <= ticks[i]
        + MAX_POLL_GAP_SECS
}

/// Whether `ticks` are the times of polling on the dot that began at
/// `start`: one every `POLL_INTERVAL_SECS`, none late.
pub open spec fn punctual_polling(start: u64, ticks: Seq<u64>) -> bool {
    forall|k: int| 0 <= k < ticks.len() ==> #[trigger] ticks[k] == start + POLL_INTERVAL_SECS * (k
        + 1)
}

/// No swap is missed and none is doubled. Under regular polling, where a
/// poll may come late by one interval, the open window is younger than
/// thirty seconds after every poll, every closed window ran for at least
/// thirty and less than forty seconds, and so the number of swaps is fixed
/// by the time polled up to the lateness: thirty seconds per swap at least,
/// and less than forty per swap and thirty more.
pub proof fn lemma_one_swap_per_window(aggregator: Aggregator, ticks: Seq<u64>)
    requires
        regular_polling(aggregator.current.start, ticks),
    ensures
        after_ticks(aggregator, ticks).current.start <= ticks.last(),
        ticks.last() - after_ticks(aggregator, ticks).current.start < WINDOW_SECS,
        aggregator.current.start + WINDOW_SECS * swaps_during(aggregator, ticks) <= after_ticks(
            aggregator,
            ticks,
        ).current.start,
        after_ticks(aggregator, ticks).current.start <= aggregator.current.start + (WINDOW_SECS
            + MAX_POLL_GAP_SECS) * swaps_during(aggregator, ticks),
        WINDOW_SECS * swaps_during(aggregator, ticks) <= ticks.last() - aggregator.current.start,
        ticks.last() - aggregator.current.start < WINDOW_SECS + (WINDOW_SECS + MAX_POLL_GAP_SECS)
            * swaps_during(aggregator, ticks),
    decreases ticks.len(),
{
    let earlier = ticks.drop_last();
    if earlier.len() > 0 {
        assert(earlier[0] == ticks[0]);
        assert forall|i: int| 0 <= i < earlier.len() - 1 implies earlier[i] <= #[trigger] earlier[i
            + 1] <= earlier[i] + MAX_POLL_GAP_SECS by {
            assert(earlier[i] == ticks[i]);
            assert(earlier[i + 1] == ticks[i + 1]);
        }
        lemma_one_swap_per_window(aggregator, earlier);
        let i = ticks.len() - 2;
        assert(earlier.last() == ticks[i]);
        assert(ticks.last() == ticks[i + 1]);
    } else {
        assert(ticks.last() == ticks[0]);
        assert(after_ticks(aggregator, earlier) == aggregator);
        assert(swaps_during(aggregator, earlier) == 0);
    }
}

/// Polling on the dot swaps once per thirty seconds exactly: after `n`
/// polls, five seconds apart, the windows closed are `n / 6`, and the open
/// window started at the last multiple of thirty seconds.
pub proof fn lemma_punctual_polling_swaps_every_sixth_poll(aggregator: Aggregator, ticks: Seq<u64>)
    requires
        punctual_polling(aggregator.current.start, ticks),
    ensures
        swaps_during(aggregator, ticks) == ticks.len() / 6,
        after_ticks(aggregator, ticks).current.start == aggregator.current.start + WINDOW_SECS * (
        ticks.len() / 6),
    decreases ticks.len(),
{
    let earlier = ticks.drop_last();
    if ticks.len() > 0 {
        assert forall|k: int| 0 <= k < earlier.len() implies #[trigger] earlier[k]
            == aggregator.current.start + POLL_INTERVAL_SECS * (k + 1) by {
            assert(earlier[k] == ticks[k]);
        }
        lemma_punctual_polling_swaps_every_sixth_poll(aggregator, earlier);
        let n = ticks.len() as int;
        assert(ticks.last() == ticks[n - 1]);
        assert(ticks.last() == aggregator.current.start + POLL_INTERVAL_SECS * n);
    }
}

} // verus!
