//! The device handle: which operations the counter offers, how a failed
//! operation is described, and who may talk to the counter at a given moment.
//!
//! The counter sits on a shared bus. Command handlers and the two background
//! tasks all want it; the handle grants it to one of them at a time.

use vstd::prelude::*;
use vstd::string::*;

verus! {

/// An operation that the counter offers over the bus.
#[derive(Clone, Copy, Debug, PartialEq, Eq, Structural)]
pub enum DeviceOp {
    /// Read the counter's self-reported last error
    GetLastError,
    /// Read one raw per-channel count tuple
    GetRadiationCount,
    /// Ask the counter for housekeeping
    GetHousekeeping,
    /// Reset the counter
    ManualReset,
    /// Re-arm the communications watchdog
    ResetCommsWatchdog,
    /// Set the period of the communications watchdog
    SetCommsWatchdogPeriod,
    /// Pass an opcode and payload through to the counter
    RawCommand,
    /// Switch the power rail of the companion computer
    RpiPower,
    /// Ping the counter over the bus
    TestPing,
}

impl DeviceOp {
    /// The name under which a failure of this operation is logged.
    pub open spec fn spec_name(self) -> Seq<char> {
        match self {
            DeviceOp::GetLastError => "get_last_error"@,
            DeviceOp::GetRadiationCount => "get_radiation_count"@,
            DeviceOp::GetHousekeeping => "get_housekeeping"@,
            DeviceOp::ManualReset => "manual_reset"@,
            DeviceOp::ResetCommsWatchdog => "reset_comms_watchdog"@,
            DeviceOp::SetCommsWatchdogPeriod => "set_comms_watchdog_period"@,
            DeviceOp::RawCommand => "raw_command"@,
            DeviceOp::RpiPower => "rpi_power"@,
            DeviceOp::TestPing => "test_ping"@,
        }
    }

    /// The name under which a failure of this operation is logged.
    pub fn name(self) -> (name: &'static str)
        ensures
            name@ == self.spec_name(),
    {
        match self {
            DeviceOp::GetLastError => "get_last_error",
            DeviceOp::GetRadiationCount => "get_radiation_count",
            DeviceOp::GetHousekeeping => "get_housekeeping",
            DeviceOp::ManualReset => "manual_reset",
            DeviceOp::ResetCommsWatchdog => "reset_comms_watchdog",
            DeviceOp::SetCommsWatchdogPeriod => "set_comms_watchdog_period",
            DeviceOp::RawCommand => "raw_command",
            DeviceOp::RpiPower => "rpi_power",
            DeviceOp::TestPing => "test_ping",
        }
    }
}

/// A device operation together with what it is handed.
#[derive(Clone, Debug, PartialEq, Eq)]
pub enum DeviceCall {
    /// Read the counter's self-reported last error
    GetLastError,
    /// Read one raw per-channel count tuple
    GetRadiationCount,
    /// Ask the counter for housekeeping
    GetHousekeeping,
    /// Reset the counter
    ManualReset,
    /// Re-arm the communications watchdog
    ResetCommsWatchdog,
    /// Set the period of the communications watchdog to the given value
    SetCommsWatchdogPeriod(u8),
    /// Pass the given opcode and payload through to the counter
    RawCommand(u8, Vec<u8>),
    /// Switch the power rail of the companion computer on or off
    RpiPower(bool),
    /// Ping the counter over the bus
    TestPing,
}

impl DeviceCall {
    /// The operation that is called.
    pub open spec fn spec_op(&self) -> DeviceOp {
        match self {
            DeviceCall::GetLastError => DeviceOp::GetLastError,
            DeviceCall::GetRadiationCount => DeviceOp::GetRadiationCount,
            DeviceCall::GetHousekeeping => DeviceOp::GetHousekeeping,
            DeviceCall::ManualReset => DeviceOp::ManualReset,
            DeviceCall::ResetCommsWatchdog => DeviceOp::ResetCommsWatchdog,
            DeviceCall::SetCommsWatchdogPeriod(_) => DeviceOp::SetCommsWatchdogPeriod,
            DeviceCall::RawCommand(_, _) => DeviceOp::RawCommand,
            DeviceCall::RpiPower(_) => DeviceOp::RpiPower,
            DeviceCall::TestPing => DeviceOp::TestPing,
        }
    }

    /// The operation that is called.
    #[verifier::when_used_as_spec(spec_op)]
    pub fn op(&self) -> (op: DeviceOp)
        ensures
            op == self.spec_op(),
    {
        match self {
            DeviceCall::GetLastError => DeviceOp::GetLastError,
            DeviceCall::GetRadiationCount => DeviceOp::GetRadiationCount,
            DeviceCall::GetHousekeeping => DeviceOp::GetHousekeeping,
            DeviceCall::ManualReset => DeviceOp::ManualReset,
            DeviceCall::ResetCommsWatchdog => DeviceOp::ResetCommsWatchdog,
            DeviceCall::SetCommsWatchdogPeriod(_) => DeviceOp::SetCommsWatchdogPeriod,
            DeviceCall::RawCommand(_, _) => DeviceOp::RawCommand,
            DeviceCall::RpiPower(_) => DeviceOp::RpiPower,
            DeviceCall::TestPing => DeviceOp::TestPing,
        }
    }
}

/// The text that describes a failure: the operation's name, a colon and a
/// space, then the cause as the transport gave it.
pub open spec fn failure_text(operation: Seq<char>, cause: Seq<char>) -> Seq<char> {
    operation + ": "@ + cause
}

/// A failure text is never empty, whatever the operation and the cause.
pub proof fn lemma_failure_text_is_not_empty(operation: Seq<char>, cause: Seq<char>)
    ensures
        failure_text(operation, cause).len() == operation.len() + 2 + cause.len(),
        failure_text(operation, cause).len() > 0,
{
    reveal_strlit(": ");
}

/// Describes a failure of `operation` whose cause the transport reported as `cause`.
pub fn describe(operation: &str, cause: &str) -> (text: String)
    ensures
        text@ == failure_text(operation@, cause@),
{
    let mut text = String::from_str(operation);
    text.append(": ");
    text.append(cause);
    text
}

/// One who asks for the counter.
#[derive(Clone, Copy, Debug, PartialEq, Eq, Structural)]
pub enum Accessor {
    /// A handler of an inbound command
    Command,
    /// The task that re-arms the communications watchdog
    Watchdog,
    /// The task that polls the counts
    Poller,
}

/// What happens at a device handle.
#[derive(Clone, Copy, Debug, PartialEq, Eq, Structural)]
pub enum HandleEvent {
    /// The accessor asks for the counter
    Acquire(Accessor),
    /// The accessor gives the counter back
    Release(Accessor),
}

/// Whether `event` changes who holds the counter: an acquire of a free
/// counter, or a release by the one who holds it.
pub open spec fn takes_effect(holder: Option<Accessor>, event: HandleEvent) -> bool {
    match event {
        HandleEvent::Acquire(_) => holder is None,
        HandleEvent::Release(who) => holder == Some(who),
    }
}

/// Who holds the counter after `event`.
pub open spec fn holder_after(holder: Option<Accessor>, event: HandleEvent) -> Option<Accessor> {
    if takes_effect(holder, event) {
        match event {
            HandleEvent::Acquire(who) => Some(who),
            HandleEvent::Release(_) => None,
        }
    } else {
        holder
    }
}

/// Who holds the counter after all of `events`, in order.
pub open spec fn holder_after_all(holder: Option<Accessor>, events: Seq<HandleEvent>) -> Option<
    Accessor,
>
    decreases events.len(),
{
    if events.len() == 0 {
        holder
    } else {
        holder_after(holder_after_all(holder, events.drop_last()), events.last())
    }
}

/// How many accessors have been granted the counter during `events` and
/// have not given it back: grants minus releases that took effect.
pub open spec fn in_flight(holder: Option<Accessor>, events: Seq<HandleEvent>) -> int
    decreases events.len(),
{
    if events.len() == 0 {
        if holder is Some {
            1
        } else {
            0
        }
    } else {
        let before = holder_after_all(holder, events.drop_last());
        let change: int = if !takes_effect(before, events.last()) {
            0
        } else if events.last() is Acquire {
            1
        } else {
            -1
        };
        in_flight(holder, events.drop_last()) + change
    }
}

/// Exclusive access to the one counter on the bus.
pub struct DeviceHandle {
    bus: String,
    addr: u16,
    holder: Option<Accessor>,
}

impl DeviceHandle {
    /// The bus identifier that the handle was made for.
    pub closed spec fn bus_view(&self) -> Seq<char> {
        self.bus@
    }

    /// The device address that the handle was made for.
    pub closed spec fn spec_addr(&self) -> u16 {
        self.addr
    }

    /// Who holds the counter, if anyone.
    pub closed spec fn spec_holder(&self) -> Option<Accessor> {
        self.holder
    }

    /// A handle for the counter at `addr` on `bus`, held by nobody.
    pub fn from_path(bus: &str, addr: u16) -> (handle: DeviceHandle)
        ensures
            handle.bus_view() == bus@,
            handle.spec_addr() == addr,
            handle.spec_holder() is None,
    {
        DeviceHandle { bus: String::from_str(bus), addr, holder: None }
    }

    /// The bus identifier that the handle was made for.
    pub fn bus(&self) -> (bus: &str)
        ensures
            bus@ == self.bus_view(),
    {
        self.bus.as_str()
    }

    /// The device address that the handle was made for.
    #[verifier::when_used_as_spec(spec_addr)]
    pub fn addr(&self) -> (addr: u16)
        ensures
            addr == self.spec_addr(),
    {
        self.addr
    }

    /// Who holds the counter, if anyone.
    #[verifier::when_used_as_spec(spec_holder)]
    pub fn holder(&self) -> (holder: Option<Accessor>)
        ensures
            holder == self.spec_holder(),
    {
        self.holder
    }

    /// Asks for the counter on behalf of `who`. It is granted exactly when
    /// nobody holds it; a refused request changes nothing.
    pub fn acquire(&mut self, who: Accessor) -> (granted: bool)
        ensures
            granted == takes_effect(old(self).spec_holder(), HandleEvent::Acquire(who)),
            granted == (old(self).spec_holder() is None),
            final(self).spec_holder() == holder_after(
                old(self).spec_holder(),
                HandleEvent::Acquire(who),
            ),
            granted ==> final(self).spec_holder() == Some(who),
            !granted ==> final(self).spec_holder() == old(self).spec_holder(),
            final(self).bus_view() == old(self).bus_view(),
            final(self).spec_addr() == old(self).spec_addr(),
    {
        match self.holder {
            None => {
                self.holder = Some(who);
                true
            },
            Some(_) => false,
        }
    }

    /// Gives the counter back on behalf of `who`. Only the holder can:
    /// a release by anyone else changes nothing and returns `false`.
    pub fn release(&mut self, who: Accessor) -> (released: bool)
        ensures
            released == takes_effect(old(self).spec_holder(), HandleEvent::Release(who)),
            released == (old(self).spec_holder() == Some(who)),
            final(self).spec_holder() == holder_after(
                old(self).spec_holder(),
                HandleEvent::Release(who),
            ),
            released ==> final(self).spec_holder() is None,
            !released ==> final(self).spec_holder() == old(self).spec_holder(),
            final(self).bus_view() == old(self).bus_view(),
            final(self).spec_addr() == old(self).spec_addr(),
    {
        match self.holder {
            Some(current) => {
                if current == who {
                    self.holder = None;
                    true
                } else {
                    false
                }
            },
            None => false,
        }
    }
}

/// Device operations never overlap. Whatever acquires and releases arrive at
/// a handle, in whatever order and from whichever accessors, the number of
/// accessors that were granted the counter and have not yet given it back is
/// zero or one, and it is one exactly while the handle has a holder.
pub proof fn lemma_at_most_one_in_flight(holder: Option<Accessor>, events: Seq<HandleEvent>)
    ensures
        0 <= in_flight(holder, events) <= 1,
        in_flight(holder, events) == 1 <==> holder_after_all(holder, events) is Some,
    decreases events.len(),
{
    if events.len() > 0 {
        lemma_at_most_one_in_flight(holder, events.drop_last());
    }
}

/// While someone holds the counter no request for it is granted: an acquire
/// that arrives after `events` takes effect only if every earlier grant has
/// been given back.
pub proof fn lemma_grant_needs_free_counter(
    holder: Option<Accessor>,
    events: Seq<HandleEvent>,
    who: Accessor,
)
    ensures
        takes_effect(holder_after_all(holder, events), HandleEvent::Acquire(who)) <==> in_flight(
            holder,
            events,
        ) == 0,
{
    lemma_at_most_one_in_flight(holder, events);
}

} // verus!
