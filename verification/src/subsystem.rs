//! The device state manager: the command surface over one radiation counter.
//!
//! The manager keeps what the service remembers about the counter: the last
//! mutation that was asked for, the log of failed device operations, and the
//! housekeeping windows. It does not talk to the bus itself. Whoever serves a
//! command first tells the manager that the command begins, learns from it
//! which device operation to run, runs it while holding the device handle,
//! and then hands the outcome to the command's handler here, which keeps the
//! books and forms the answer.

use crate::device::{describe, failure_text, DeviceCall, DeviceHandle, DeviceOp};
use crate::error_log::ErrorLog;
use crate::models::housekeeping::RCHk;
use crate::models::last_error::{reported, to_error, Error, ErrorCode};
use crate::models::{GenericResponse, MutationResponse};
use crate::tasks::{Task, TaskKind};
use crate::window::{Aggregator, Counts};
use vstd::prelude::*;

verus! {

/// Enum for tracking the last mutation executed
#[derive(Clone, Copy, Debug, PartialEq, Eq, Hash, Structural)]
pub enum Mutations {
    /// No mutation has been run since the service was started
    NoMutation,
    /// No-op
    Noop,
    /// Manual reset
    ManualReset,
    /// Raw passthrough command
    RawCommand,
    /// Watchdog reset
    ResetWatchdog,
    /// Set watchdog period
    SetWatchdogPeriod,
    /// Hardware test
    TestHardware,
    /// Control power to the companion computer
    RpiPower,
}

/// An operation of the command surface, with its input.
#[derive(Clone, Debug, PartialEq, Eq)]
pub enum Command {
    /// Liveness probe that does not touch the counter
    Ping,
    /// The counter's self-reported last error
    GetLastError,
    /// One raw reading, past the aggregator
    GetCounts,
    /// The housekeeping record
    GetHousekeeping,
    /// The failures logged since this was last asked, which it clears
    GetErrors,
    /// The last mutation that was asked for
    Ack,
    /// Reset the counter
    ManualReset,
    /// Re-arm the communications watchdog
    ResetWatchdog,
    /// Set the period of the communications watchdog to the given value
    SetWatchdogPeriod(u8),
    /// Pass the given opcode and payload through to the counter
    RawCommand(u8, Vec<u8>),
    /// Switch the power rail of the companion computer on or off
    RpiPower(bool),
    /// Ping the counter over the bus
    TestHardware,
}

impl Command {
    /// The mutation that the command is recorded as; none for a query.
    pub open spec fn spec_mutation(&self) -> Option<Mutations> {
        match self {
            Command::ManualReset => Some(Mutations::ManualReset),
            Command::ResetWatchdog => Some(Mutations::ResetWatchdog),
            Command::SetWatchdogPeriod(_) => Some(Mutations::SetWatchdogPeriod),
            Command::RawCommand(_, _) => Some(Mutations::RawCommand),
            Command::RpiPower(_) => Some(Mutations::RpiPower),
            Command::TestHardware => Some(Mutations::TestHardware),
            Command::Ping
            | Command::GetLastError
            | Command::GetCounts
            | Command::GetHousekeeping
            | Command::GetErrors
            | Command::Ack => None,
        }
    }

    /// The device call that serves the command, with the command's input
    /// as what the call is handed; none for a command that is answered from
    /// the manager's own state.
    pub open spec fn spec_device_call(self) -> Option<DeviceCall> {
        match self {
            Command::GetLastError => Some(DeviceCall::GetLastError),
            Command::GetCounts => Some(DeviceCall::GetRadiationCount),
            Command::GetHousekeeping => Some(DeviceCall::GetHousekeeping),
            Command::ManualReset => Some(DeviceCall::ManualReset),
            Command::ResetWatchdog => Some(DeviceCall::ResetCommsWatchdog),
            Command::SetWatchdogPeriod(period) => Some(DeviceCall::SetCommsWatchdogPeriod(period)),
            Command::RawCommand(opcode, data) => Some(DeviceCall::RawCommand(opcode, data)),
            Command::RpiPower(state) => Some(DeviceCall::RpiPower(state)),
            Command::TestHardware => Some(DeviceCall::TestPing),
            Command::Ping | Command::GetErrors | Command::Ack => None,
        }
    }

    /// The mutation that the command is recorded as; none for a query.
    #[verifier::when_used_as_spec(spec_mutation)]
    pub fn mutation(&self) -> (mutation: Option<Mutations>)
        ensures
            mutation == self.spec_mutation(),
    {
        match self {
            Command::ManualReset => Some(Mutations::ManualReset),
            Command::ResetWatchdog => Some(Mutations::ResetWatchdog),
            Command::SetWatchdogPeriod(_) => Some(Mutations::SetWatchdogPeriod),
            Command::RawCommand(_, _) => Some(Mutations::RawCommand),
            Command::RpiPower(_) => Some(Mutations::RpiPower),
            Command::TestHardware => Some(Mutations::TestHardware),
            _ => None,
        }
    }

    /// The device call that serves the command, with the command's input
    /// as what the call is handed; none for a command that is answered from
    /// the manager's own state.
    #[verifier::when_used_as_spec(spec_device_call)]
    pub fn device_call(self) -> (call: Option<DeviceCall>)
        ensures
            call == self.spec_device_call(),
    {
        match self {
            Command::GetLastError => Some(DeviceCall::GetLastError),
            Command::GetCounts => Some(DeviceCall::GetRadiationCount),
            Command::GetHousekeeping => Some(DeviceCall::GetHousekeeping),
            Command::ManualReset => Some(DeviceCall::ManualReset),
            Command::ResetWatchdog => Some(DeviceCall::ResetCommsWatchdog),
            Command::SetWatchdogPeriod(period) => Some(DeviceCall::SetCommsWatchdogPeriod(period)),
            Command::RawCommand(opcode, data) => Some(DeviceCall::RawCommand(opcode, data)),
            Command::RpiPower(state) => Some(DeviceCall::RpiPower(state)),
            Command::TestHardware => Some(DeviceCall::TestPing),
            _ => None,
        }
    }

    /// Whether the command is a mutation.
    pub fn is_mutation(&self) -> (yes: bool)
        ensures
            yes == (self.spec_mutation() is Some),
    {
        self.mutation().is_some()
    }
}

/// What the manager remembers, as mathematics.
pub struct State {
    /// The last mutation that was asked for
    pub last_mutation: Mutations,
    /// The failures logged since the last drain, oldest first
    pub errors: Seq<Seq<char>>,
    /// The housekeeping windows
    pub housekeeping: Aggregator,
}

/// What can happen to the manager.
pub enum Event {
    /// A command begins; it has not touched the counter yet
    Begin(Command),
    /// A mutation is recorded by name
    Record(Mutations),
    /// The device operation of a command is over; with the cause if it failed
    Settle(DeviceOp, Option<Seq<char>>),
    /// The housekeeping request to the counter is over
    Housekeeping(Option<Seq<char>>),
    /// The watchdog task's kick is over
    Kick(Option<Seq<char>>),
    /// The poller task's tick at the given time is over; with the reading,
    /// or with the cause if the counter did not answer
    Poll(u64, Result<Counts, Seq<char>>),
    /// The error log is drained
    Drain,
}

/// The cause of a failed outcome; none for one that went through.
pub open spec fn failure_of<T>(outcome: Result<T, String>) -> Option<Seq<char>> {
    match outcome {
        Ok(_) => None,
        Err(cause) => Some(cause@),
    }
}

/// The error text of a response: empty when the operation went through,
/// the description of the failure when it did not.
pub open spec fn response_text(op: DeviceOp, failure: Option<Seq<char>>) -> Seq<char> {
    match failure {
        None => Seq::empty(),
        Some(cause) => failure_text(op.spec_name(), cause),
    }
}

/// What `event` appends to the error log. A failed device operation of a
/// command, and a failed poll, each log their description. Nothing else
/// logs: not a kick of the watchdog, not a housekeeping request, whether
/// they fail or not.
pub open spec fn logged_by(event: Event) -> Seq<Seq<char>> {
    match event {
        Event::Settle(op, Some(cause)) => seq![failure_text(op.spec_name(), cause)],
        Event::Poll(_, Err(cause)) => seq![
            failure_text(DeviceOp::GetRadiationCount.spec_name(), cause),
        ],
        _ => Seq::empty(),
    }
}

impl State {
    /// The state of a manager that has just been made at `now`.
    pub open spec fn initial(now: u64) -> State {
        State {
            last_mutation: Mutations::NoMutation,
            errors: Seq::empty(),
            housekeeping: Aggregator::starting_at(now),
        }
    }

    /// The state after `event`.
    pub open spec fn after(self, event: Event) -> State {
        match event {
            Event::Begin(command) => State {
                last_mutation: match command.spec_mutation() {
                    Some(mutation) => mutation,
                    None => self.last_mutation,
                },
                ..self
            },
            Event::Record(mutation) => State { last_mutation: mutation, ..self },
            Event::Settle(_, _) => State { errors: self.errors + logged_by(event), ..self },
            Event::Housekeeping(_) => self,
            Event::Kick(_) => self,
            Event::Poll(now, outcome) => State {
                errors: self.errors + logged_by(event),
                housekeeping: match outcome {
                    Ok(counts) => self.housekeeping.polled(now, counts),
                    Err(_) => self.housekeeping.rolled(now),
                },
                ..self
            },
            Event::Drain => State { errors: Seq::empty(), ..self },
        }
    }

    /// The state after all of `events`, in order.
    pub open spec fn after_all(self, events: Seq<Event>) -> State
        decreases events.len(),
    {
        if events.len() == 0 {
            self
        } else {
            self.after_all(events.drop_last()).after(events.last())
        }
    }
}

/// What all of `events` append to the error log, in order.
pub open spec fn logged_by_all(events: Seq<Event>) -> Seq<Seq<char>>
    decreases events.len(),
{
    if events.len() == 0 {
        Seq::empty()
    } else {
        logged_by_all(events.drop_last()) + logged_by(events.last())
    }
}

/// Whether `event` records a mutation: the begin of a mutating command, or
/// a mutation recorded by name.
pub open spec fn records_mutation(event: Event) -> bool {
    match event {
        Event::Begin(command) => command.spec_mutation() is Some,
        Event::Record(_) => true,
        _ => false,
    }
}

/// Between two drains the log grows by what the events logged and by
/// nothing else, in their order.
pub proof fn lemma_log_grows_by_what_is_logged(state: State, events: Seq<Event>)
    requires
        forall|i: int| 0 <= i < events.len() ==> !(#[trigger] events[i] is Drain),
    ensures
        state.after_all(events).errors == state.errors + logged_by_all(events),
    decreases events.len(),
{
    if events.len() == 0 {
        assert(state.errors + Seq::<Seq<char>>::empty() =~= state.errors);
    } else {
        let earlier = events.drop_last();
        assert forall|i: int| 0 <= i < earlier.len() implies !(#[trigger] earlier[i] is Drain) by {
            assert(earlier[i] == events[i]);
        }
        lemma_log_grows_by_what_is_logged(state, earlier);
        assert(!(events[events.len() - 1] is Drain));
        assert((state.errors + logged_by_all(earlier)) + logged_by(events.last()) =~= state.errors
            + (logged_by_all(earlier) + logged_by(events.last())));
    }
}

/// A drain returns exactly the failures logged since the drain before it.
/// Whatever the manager held, after a drain and then any events but a
/// drain, the log holds what those events logged, each failure once and in
/// order: one description per failed device operation of a command, one per
/// failed poll, none for anything else. The next drain returns that and
/// leaves the log empty, and a drain right after a drain returns nothing.
pub proof fn lemma_drain_returns_failures_since_last_drain(state: State, events: Seq<Event>)
    requires
        forall|i: int| 0 <= i < events.len() ==> !(#[trigger] events[i] is Drain),
    ensures
        state.after(Event::Drain).after_all(events).errors == logged_by_all(events),
        state.after(Event::Drain).after_all(events).after(Event::Drain).errors == Seq::<
            Seq<char>,
        >::empty(),
        state.after(Event::Drain).after(Event::Drain).errors == Seq::<Seq<char>>::empty(),
        state.after(Event::Drain).errors == Seq::<Seq<char>>::empty(),
{
    lemma_log_grows_by_what_is_logged(state.after(Event::Drain), events);
    assert(Seq::<Seq<char>>::empty() + logged_by_all(events) =~= logged_by_all(events));
}

/// A failed device operation of a command is logged once, under the text
/// that the response carries, and that text is not empty; an operation that
/// went through logs nothing.
pub proof fn lemma_failure_is_logged_once(state: State, op: DeviceOp, failure: Option<Seq<char>>)
    ensures
        failure is Some ==> state.after(Event::Settle(op, failure)).errors == state.errors.push(
            response_text(op, failure),
        ),
        failure is Some ==> response_text(op, failure).len() > 0,
        failure is None ==> state.after(Event::Settle(op, failure)).errors == state.errors,
        failure is None ==> response_text(op, failure).len() == 0,
{
    match failure {
        Some(cause) => {
            crate::device::lemma_failure_text_is_not_empty(op.spec_name(), cause);
            assert(state.errors + seq![failure_text(op.spec_name(), cause)] =~= state.errors.push(
                failure_text(op.spec_name(), cause),
            ));
        },
        None => {
            assert(state.errors + Seq::<Seq<char>>::empty() =~= state.errors);
        },
    }
}

/// The acknowledged mutation is the one asked for last. Once a mutating
/// command has begun, the last mutation is that command's, whether its
/// device operation then goes through or fails, and it stays so through all
/// that happens until another mutation is recorded.
pub proof fn lemma_ack_reflects_latest_mutation(state: State, command: Command, events: Seq<Event>)
    requires
        command.spec_mutation() is Some,
        forall|i: int| 0 <= i < events.len() ==> !records_mutation(#[trigger] events[i]),
    ensures
        state.after(Event::Begin(command)).last_mutation == command.spec_mutation().unwrap(),
        state.after(Event::Begin(command)).after_all(events).last_mutation
            == command.spec_mutation().unwrap(),
    decreases events.len(),
{
    if events.len() > 0 {
        let earlier = events.drop_last();
        assert forall|i: int| 0 <= i < earlier.len() implies !records_mutation(
            #[trigger] earlier[i],
        ) by {
            assert(earlier[i] == events[i]);
        }
        lemma_ack_reflects_latest_mutation(state, command, earlier);
        assert(!records_mutation(events[events.len() - 1]));
    }
}

/// A query records nothing: beginning a command that is no mutation leaves
/// the last mutation as it was.
pub proof fn lemma_query_keeps_last_mutation(state: State, command: Command)
    requires
        command.spec_mutation() is None,
    ensures
        state.after(Event::Begin(command)) == state,
{
}

/// The housekeeping windows change at a poll and at nothing else.
pub proof fn lemma_only_polls_touch_the_windows(state: State, event: Event)
    requires
        !(event is Poll),
    ensures
        state.after(event).housekeeping == state.housekeeping,
{
}


/// Main structure for controlling and accessing system resources
pub struct Subsystem {
    /// Exclusive access to the counter
    pub handle: DeviceHandle,
    /// Last mutation executed
    pub last_mutation: Mutations,
    /// Errors accumulated over all queries and mutations
    pub errors: ErrorLog,
    /// Housekeeping windows, fed by the poller task
    pub housekeeping: Aggregator,
    /// The task that re-arms the communications watchdog
    pub watchdog: Task,
    /// The task that polls the counts
    pub poller: Task,
}

impl View for Subsystem {
    type V = State;

    open spec fn view(&self) -> State {
        State {
            last_mutation: self.last_mutation,
            errors: self.errors@,
            housekeeping: self.housekeeping,
        }
    }
}

impl Subsystem {
    /// Whether the handle and the two tasks of `self` are those of `other`.
    pub open spec fn same_fixtures(&self, other: &Subsystem) -> bool {
        &&& self.handle == other.handle
        &&& self.watchdog == other.watchdog
        &&& self.poller == other.poller
    }

    /// Create a new subsystem instance for the service to use.
    ///
    /// `handle` is the device handle, or the cause for which none could be
    /// made. Construction fails as a unit: with a handle the manager is
    /// made at `now` with both background tasks started; without one nothing
    /// is made and no task is started, and the error describes the cause.
    pub fn new(handle: Result<DeviceHandle, String>, now: u64) -> (made: Result<Subsystem, String>)
        ensures
            match handle {
                Ok(h) => made matches Ok(subsystem) && subsystem@ == State::initial(now)
                    && subsystem.handle == h && subsystem.watchdog == Task::started(
                    TaskKind::Watchdog,
                ) && subsystem.poller == Task::started(TaskKind::Poller),
                Err(cause) => made matches Err(text) && text@ == failure_text("open"@, cause@),
            },
    {
        match handle {
            Ok(handle) => Ok(
                Subsystem {
                    handle,
                    last_mutation: Mutations::NoMutation,
                    errors: ErrorLog::new(),
                    housekeeping: Aggregator::new(now),
                    watchdog: Task::start(TaskKind::Watchdog),
                    poller: Task::start(TaskKind::Poller),
                },
            ),
            Err(cause) => Err(describe("open", cause.as_str())),
        }
    }

    /// Create a handle for the counter at `addr` on `bus`, held by nobody,
    /// and then a new subsystem which will use it.
    pub fn from_path(bus: &str, addr: u16, now: u64) -> (made: Result<Subsystem, String>)
        ensures
            made matches Ok(subsystem) && subsystem@ == State::initial(now)
                && subsystem.handle.bus_view() == bus@ && subsystem.handle.spec_addr() == addr
                && subsystem.handle.spec_holder() is None && subsystem.watchdog == Task::started(
                TaskKind::Watchdog,
            ) && subsystem.poller == Task::started(TaskKind::Poller),
    {
        Subsystem::new(Ok(DeviceHandle::from_path(bus, addr)), now)
    }

    /// Tells the manager that `command` begins. A mutation is recorded as
    /// the last one now, before the counter is touched, so that it shows
    /// whether or not it later fails. Returns the device call to make for
    /// the command, if it needs one, with the command's input in it.
    pub fn begin(&mut self, command: Command) -> (call: Option<DeviceCall>)
        ensures
            final(self)@ == old(self)@.after(Event::Begin(command)),
            final(self).same_fixtures(old(self)),
            call == command.spec_device_call(),
    {
        match command.mutation() {
            Some(mutation) => {
                self.last_mutation = mutation;
            },
            None => {},
        }
        command.device_call()
    }

    /// Record the last mutation executed by the service
    pub fn set_last_mutation(&mut self, mutation: Mutations)
        ensures
            final(self)@ == old(self)@.after(Event::Record(mutation)),
            final(self).last_mutation == mutation,
            final(self).same_fixtures(old(self)),
    {
        self.last_mutation = mutation;
    }

    /// Get the last executed mutation
    pub fn get_last_mutation(&self) -> (mutation: Mutations)
        ensures
            mutation == self@.last_mutation,
    {
        self.last_mutation
    }

    /// Liveness probe: always succeeds and does not touch the counter.
    pub fn ping(&self) -> (response: GenericResponse)
        ensures
            response.success,
            response.errors@ == Seq::<char>::empty(),
    {
        GenericResponse::new()
    }

    /// The policy for every device operation of a command. An outcome that
    /// went through is handed on as it is. A failure is described, the
    /// description is appended to the error log, and the same description is
    /// handed on as the error.
    pub fn run<T>(&mut self, op: DeviceOp, outcome: Result<T, String>) -> (result: Result<
        T,
        String,
    >)
        ensures
            final(self)@ == old(self)@.after(Event::Settle(op, failure_of(outcome))),
            final(self).same_fixtures(old(self)),
            match outcome {
                Ok(value) => result == Ok::<T, String>(value),
                Err(cause) => result matches Err(text) && text@ == failure_text(
                    op.spec_name(),
                    cause@,
                ),
            },
    {
        match outcome {
            Ok(value) => {
                assert(self@.errors + Seq::<Seq<char>>::empty() =~= self@.errors);
                Ok(value)
            },
            Err(cause) => {
                let text = describe(op.name(), cause.as_str());
                self.errors.push(text.clone());
                assert(old(self)@.errors.push(text@) =~= old(self)@.errors + seq![text@]);
                Err(text)
            },
        }
    }

    fn mutate(&mut self, op: DeviceOp, outcome: Result<(), String>) -> (response: MutationResponse)
        ensures
            final(self)@ == old(self)@.after(Event::Settle(op, failure_of(outcome))),
            final(self).same_fixtures(old(self)),
            response.success == (outcome is Ok),
            response.errors@ == response_text(op, failure_of(outcome)),
    {
        match self.run(op, outcome) {
            Ok(_) => MutationResponse::succeeded(),
            Err(text) => MutationResponse::failed(text),
        }
    }

    /// Get the last error the counter encountered. `outcome` is what the
    /// counter answered to `DeviceOp::GetLastError`.
    pub fn get_last_error(&mut self, outcome: Result<ErrorCode, String>) -> (result: Result<
        Error,
        String,
    >)
        ensures
            final(self)@ == old(self)@.after(
                Event::Settle(DeviceOp::GetLastError, failure_of(outcome)),
            ),
            final(self).same_fixtures(old(self)),
            match outcome {
                Ok(code) => result == Ok::<Error, String>(reported(code)),
                Err(cause) => result matches Err(text) && text@ == failure_text(
                    DeviceOp::GetLastError.spec_name(),
                    cause@,
                ),
            },
    {
        match self.run(DeviceOp::GetLastError, outcome) {
            Ok(code) => Ok(to_error(code)),
            Err(text) => Err(text),
        }
    }

    /// Trigger a manual reset of the counter. `outcome` is how
    /// `DeviceOp::ManualReset` went. Nothing is tried again.
    pub fn manual_reset(&mut self, outcome: Result<(), String>) -> (response: MutationResponse)
        ensures
            final(self)@ == old(self)@.after(
                Event::Settle(DeviceOp::ManualReset, failure_of(outcome)),
            ),
            final(self).same_fixtures(old(self)),
            response.success == (outcome is Ok),
            response.errors@ == response_text(DeviceOp::ManualReset, failure_of(outcome)),
    {
        self.mutate(DeviceOp::ManualReset, outcome)
    }

    /// Kick the communications watchdog on command. `outcome` is how
    /// `DeviceOp::ResetCommsWatchdog` went.
    pub fn reset_watchdog(&mut self, outcome: Result<(), String>) -> (response: MutationResponse)
        ensures
            final(self)@ == old(self)@.after(
                Event::Settle(DeviceOp::ResetCommsWatchdog, failure_of(outcome)),
            ),
            final(self).same_fixtures(old(self)),
            response.success == (outcome is Ok),
            response.errors@ == response_text(DeviceOp::ResetCommsWatchdog, failure_of(outcome)),
    {
        self.mutate(DeviceOp::ResetCommsWatchdog, outcome)
    }

    /// Set the period of the communications watchdog. `outcome` is how
    /// `DeviceOp::SetCommsWatchdogPeriod` went.
    pub fn set_comms_watchdog_period(&mut self, outcome: Result<(), String>) -> (response:
        MutationResponse)
        ensures
            final(self)@ == old(self)@.after(
                Event::Settle(DeviceOp::SetCommsWatchdogPeriod, failure_of(outcome)),
            ),
            final(self).same_fixtures(old(self)),
            response.success == (outcome is Ok),
            response.errors@ == response_text(
                DeviceOp::SetCommsWatchdogPeriod,
                failure_of(outcome),
            ),
    {
        self.mutate(DeviceOp::SetCommsWatchdogPeriod, outcome)
    }

    /// Pass a raw command through to the counter. `outcome` is how
    /// `DeviceOp::RawCommand` went.
    pub fn raw_command(&mut self, outcome: Result<(), String>) -> (response: MutationResponse)
        ensures
            final(self)@ == old(self)@.after(
                Event::Settle(DeviceOp::RawCommand, failure_of(outcome)),
            ),
            final(self).same_fixtures(old(self)),
            response.success == (outcome is Ok),
            response.errors@ == response_text(DeviceOp::RawCommand, failure_of(outcome)),
    {
        self.mutate(DeviceOp::RawCommand, outcome)
    }

    /// Control power mode of the companion computer. `outcome` is how
    /// `DeviceOp::RpiPower` went.
    pub fn rpi_power(&mut self, outcome: Result<(), String>) -> (response: MutationResponse)
        ensures
            final(self)@ == old(self)@.after(Event::Settle(DeviceOp::RpiPower, failure_of(outcome))),
            final(self).same_fixtures(old(self)),
            response.success == (outcome is Ok),
            response.errors@ == response_text(DeviceOp::RpiPower, failure_of(outcome)),
    {
        self.mutate(DeviceOp::RpiPower, outcome)
    }

    /// Ping the counter over the bus. `outcome` is how `DeviceOp::TestPing`
    /// went.
    pub fn test_ping(&mut self, outcome: Result<(), String>) -> (response: GenericResponse)
        ensures
            final(self)@ == old(self)@.after(Event::Settle(DeviceOp::TestPing, failure_of(outcome))),
            final(self).same_fixtures(old(self)),
            response.success == (outcome is Ok),
            response.errors@ == response_text(DeviceOp::TestPing, failure_of(outcome)),
    {
        match self.run(DeviceOp::TestPing, outcome) {
            Ok(_) => GenericResponse::new(),
            Err(text) => GenericResponse::failed(text),
        }
    }

    /// Get one raw reading on demand. `outcome` is what the counter
    /// answered to `DeviceOp::GetRadiationCount`. The reading does not go
    /// into the housekeeping windows.
    pub fn get_radiation_count(&mut self, outcome: Result<(u16, u16, u16), String>) -> (result:
        Result<(u16, u16, u16), String>)
        ensures
            final(self)@ == old(self)@.after(
                Event::Settle(DeviceOp::GetRadiationCount, failure_of(outcome)),
            ),
            final(self)@.housekeeping == old(self)@.housekeeping,
            final(self).same_fixtures(old(self)),
            match outcome {
                Ok(reading) => result == Ok::<(u16, u16, u16), String>(reading),
                Err(cause) => result matches Err(text) && text@ == failure_text(
                    DeviceOp::GetRadiationCount.spec_name(),
                    cause@,
                ),
            },
    {
        self.run(DeviceOp::GetRadiationCount, outcome)
    }

    /// Get housekeeping data: the sums of the open window as they stand,
    /// without waiting for the window to close. `outcome` is how
    /// `DeviceOp::GetHousekeeping` went; if the counter did not answer, the
    /// record is all zero, and the failure is neither handed on nor logged.
    pub fn get_housekeeping(&self, outcome: Result<(), String>) -> (record: RCHk)
        ensures
            outcome is Ok ==> record == self@.housekeeping.current.sums,
            outcome is Err ==> record == RCHk::zero(),
            self@.after(Event::Housekeeping(failure_of(outcome))) == self@,
    {
        match outcome {
            Ok(_) => self.housekeeping.snapshot(),
            Err(_) => RCHk::default(),
        }
    }

    /// Fetch all errors since the last time this function was called, then
    /// clear the errors storage
    pub fn get_errors(&mut self) -> (errors: Vec<String>)
        ensures
            errors.deep_view() == old(self)@.errors,
            final(self)@ == old(self)@.after(Event::Drain),
            final(self)@.errors == Seq::<Seq<char>>::empty(),
            final(self).same_fixtures(old(self)),
    {
        self.errors.drain()
    }

    /// Takes the outcome of a kick by the watchdog task and lets it go. A
    /// missed kick is not logged: the counter's own watchdog is the net.
    pub fn watchdog_tick(&mut self, outcome: Result<(), String>)
        ensures
            final(self)@ == old(self)@.after(Event::Kick(failure_of(outcome))),
            final(self)@ == old(self)@,
            final(self).same_fixtures(old(self)),
    {
    }

    /// Takes the outcome of a tick by the poller task. `now` is the time of
    /// the tick in seconds. If the open window is thirty seconds old or
    /// older it is closed and a new one opens at `now`. A reading then goes
    /// into the open window; a failure is logged and changes no sum.
    /// Returns whether a window was closed.
    pub fn poller_tick(&mut self, now: u64, outcome: Result<Counts, String>) -> (swapped: bool)
        ensures
            final(self)@ == old(self)@.after(
                Event::Poll(
                    now,
                    match outcome {
                        Ok(counts) => Ok(counts),
                        Err(cause) => Err(cause@),
                    },
                ),
            ),
            swapped == old(self)@.housekeeping.spec_is_due(now),
            final(self).same_fixtures(old(self)),
    {
        let swapped = self.housekeeping.roll(now);
        match outcome {
            Ok(counts) => {
                self.housekeeping.accumulate(counts);
                assert(self@.errors + Seq::<Seq<char>>::empty() =~= self@.errors);
            },
            Err(cause) => {
                let text = describe(DeviceOp::GetRadiationCount.name(), cause.as_str());
                self.errors.push(text);
                assert(old(self)@.errors.push(text@) =~= old(self)@.errors + seq![text@]);
            },
        }
        swapped
    }
}

} // verus!
