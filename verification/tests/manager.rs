use radiation_counter_service::device::{Accessor, DeviceCall, DeviceHandle, DeviceOp};
use radiation_counter_service::models::housekeeping::RCHk;
use radiation_counter_service::models::last_error::{Error, ErrorCode};
use radiation_counter_service::subsystem::{Command, Mutations, Subsystem};
use radiation_counter_service::tasks::{Task, TaskKind};
use radiation_counter_service::window::Counts;

fn manager(now: u64) -> Subsystem {
    Subsystem::from_path("/dev/i2c-1", 0x31, now).unwrap()
}

fn bus_down() -> Result<(), String> {
    Err(String::from("bus timeout"))
}

#[test]
fn from_path_makes_a_fresh_manager_with_both_tasks() {
    let subsystem = manager(1000);
    assert_eq!(subsystem.handle.bus(), "/dev/i2c-1");
    assert_eq!(subsystem.handle.addr(), 0x31);
    assert_eq!(subsystem.handle.holder(), None);
    assert_eq!(subsystem.get_last_mutation(), Mutations::NoMutation);
    assert_eq!(subsystem.errors.len(), 0);
    assert_eq!(subsystem.housekeeping.current.start, 1000);
    assert_eq!(subsystem.housekeeping.current.sums, RCHk::default());
    assert_eq!(subsystem.housekeeping.previous, None);
    assert_eq!(subsystem.watchdog, Task::start(TaskKind::Watchdog));
    assert_eq!(subsystem.poller, Task::start(TaskKind::Poller));
}

#[test]
fn new_fails_as_a_unit_without_a_handle() {
    let made = Subsystem::new(Err(String::from("no such bus")), 5);
    match made {
        Ok(_) => panic!("a manager was made without a handle"),
        Err(text) => assert_eq!(text, "open: no such bus"),
    }
}

#[test]
fn new_keeps_the_handle_it_is_given() {
    let mut handle = DeviceHandle::from_path("/dev/i2c-0", 0x12);
    assert!(handle.acquire(Accessor::Command));
    let subsystem = Subsystem::new(Ok(handle), 7).ok().unwrap();
    assert_eq!(subsystem.handle.bus(), "/dev/i2c-0");
    assert_eq!(subsystem.handle.addr(), 0x12);
    assert_eq!(subsystem.handle.holder(), Some(Accessor::Command));
    assert_eq!(subsystem.housekeeping.current.start, 7);
}

#[test]
fn ping_always_succeeds() {
    let subsystem = manager(0);
    let response = subsystem.ping();
    assert!(response.success);
    assert_eq!(response.errors, "");
    assert_eq!(subsystem.errors.len(), 0);
}

#[test]
fn failed_manual_reset_is_reported_and_logged_once() {
    let mut subsystem = manager(0);
    assert_eq!(subsystem.begin(Command::ManualReset), Some(DeviceCall::ManualReset));
    let response = subsystem.manual_reset(bus_down());
    assert!(!response.success);
    assert!(!response.errors.is_empty());
    assert_eq!(response.errors, "manual_reset: bus timeout");
    let drained = subsystem.get_errors();
    assert_eq!(drained, vec![response.errors.clone()]);
    assert_eq!(drained.iter().filter(|entry| **entry == response.errors).count(), 1);
    assert!(subsystem.get_errors().is_empty());
}

#[test]
fn failure_with_an_empty_cause_still_has_a_text() {
    let mut subsystem = manager(0);
    let response = subsystem.manual_reset(Err(String::new()));
    assert!(!response.success);
    assert_eq!(response.errors, "manual_reset: ");
    assert_eq!(subsystem.get_errors(), vec![String::from("manual_reset: ")]);
}

#[test]
fn successful_manual_reset_logs_nothing() {
    let mut subsystem = manager(0);
    subsystem.begin(Command::ManualReset);
    let response = subsystem.manual_reset(Ok(()));
    assert!(response.success);
    assert_eq!(response.errors, "");
    assert!(subsystem.get_errors().is_empty());
}

#[test]
fn manual_reset_is_not_tried_again() {
    let mut subsystem = manager(0);
    subsystem.begin(Command::ManualReset);
    subsystem.manual_reset(bus_down());
    assert_eq!(subsystem.errors.len(), 1);
    assert_eq!(subsystem.handle.holder(), None);
}

#[test]
fn drain_returns_what_was_logged_since_the_last_drain_in_order() {
    let mut subsystem = manager(0);
    subsystem.manual_reset(Err(String::from("first")));
    subsystem.reset_watchdog(Ok(()));
    subsystem.rpi_power(Err(String::from("second")));
    assert_eq!(
        subsystem.get_errors(),
        vec![String::from("manual_reset: first"), String::from("rpi_power: second")]
    );
    subsystem.test_ping(Err(String::from("third")));
    subsystem.poller_tick(3, Err(String::from("fourth")));
    assert_eq!(
        subsystem.get_errors(),
        vec![String::from("test_ping: third"), String::from("get_radiation_count: fourth")]
    );
}

#[test]
fn drain_after_drain_is_empty() {
    let mut subsystem = manager(0);
    subsystem.raw_command(Err(String::from("nack")));
    assert_eq!(subsystem.get_errors().len(), 1);
    assert_eq!(subsystem.get_errors(), Vec::<String>::new());
    assert_eq!(subsystem.get_errors(), Vec::<String>::new());
}

#[test]
fn ack_reflects_the_mutation_whether_it_fails_or_not() {
    let mut subsystem = manager(0);
    subsystem.begin(Command::ManualReset);
    assert_eq!(subsystem.get_last_mutation(), Mutations::ManualReset);
    subsystem.manual_reset(bus_down());
    assert_eq!(subsystem.get_last_mutation(), Mutations::ManualReset);
    subsystem.begin(Command::RpiPower(true));
    subsystem.rpi_power(Ok(()));
    assert_eq!(subsystem.get_last_mutation(), Mutations::RpiPower);
    subsystem.begin(Command::SetWatchdogPeriod(10));
    subsystem.set_comms_watchdog_period(bus_down());
    assert_eq!(subsystem.get_last_mutation(), Mutations::SetWatchdogPeriod);
}

#[test]
fn queries_and_ticks_do_not_change_the_ack() {
    let mut subsystem = manager(0);
    subsystem.begin(Command::ResetWatchdog);
    subsystem.reset_watchdog(Ok(()));
    for query in [
        Command::Ping,
        Command::GetLastError,
        Command::GetCounts,
        Command::GetHousekeeping,
        Command::GetErrors,
        Command::Ack,
    ] {
        subsystem.begin(query);
        assert_eq!(subsystem.get_last_mutation(), Mutations::ResetWatchdog);
    }
    subsystem.get_last_error(Err(String::from("x")));
    subsystem.get_radiation_count(Ok((1, 2, 3)));
    subsystem.get_errors();
    subsystem.watchdog_tick(bus_down());
    subsystem.poller_tick(40, Ok(Counts::from_triple((1, 1, 1))));
    assert_eq!(subsystem.get_last_mutation(), Mutations::ResetWatchdog);
}

#[test]
fn set_last_mutation_overwrites_the_single_slot() {
    let mut subsystem = manager(0);
    subsystem.set_last_mutation(Mutations::Noop);
    assert_eq!(subsystem.get_last_mutation(), Mutations::Noop);
    subsystem.set_last_mutation(Mutations::TestHardware);
    assert_eq!(subsystem.get_last_mutation(), Mutations::TestHardware);
    subsystem.set_last_mutation(Mutations::NoMutation);
    assert_eq!(subsystem.get_last_mutation(), Mutations::NoMutation);
}

#[test]
fn command_table_names_mutation_and_device_call() {
    let table = [
        (Command::Ping, None, None),
        (Command::GetLastError, None, Some(DeviceCall::GetLastError)),
        (Command::GetCounts, None, Some(DeviceCall::GetRadiationCount)),
        (Command::GetHousekeeping, None, Some(DeviceCall::GetHousekeeping)),
        (Command::GetErrors, None, None),
        (Command::Ack, None, None),
        (Command::ManualReset, Some(Mutations::ManualReset), Some(DeviceCall::ManualReset)),
        (
            Command::ResetWatchdog,
            Some(Mutations::ResetWatchdog),
            Some(DeviceCall::ResetCommsWatchdog),
        ),
        (
            Command::SetWatchdogPeriod(7),
            Some(Mutations::SetWatchdogPeriod),
            Some(DeviceCall::SetCommsWatchdogPeriod(7)),
        ),
        (
            Command::RawCommand(0x42, vec![1, 2, 3]),
            Some(Mutations::RawCommand),
            Some(DeviceCall::RawCommand(0x42, vec![1, 2, 3])),
        ),
        (Command::RpiPower(false), Some(Mutations::RpiPower), Some(DeviceCall::RpiPower(false))),
        (Command::RpiPower(true), Some(Mutations::RpiPower), Some(DeviceCall::RpiPower(true))),
        (Command::TestHardware, Some(Mutations::TestHardware), Some(DeviceCall::TestPing)),
    ];
    for (command, mutation, call) in table {
        assert_eq!(command.mutation(), mutation);
        assert_eq!(command.clone().device_call(), call);
        assert_eq!(command.is_mutation(), mutation.is_some());
        let mut subsystem = manager(0);
        assert_eq!(subsystem.begin(command), call);
        assert_eq!(subsystem.get_last_mutation(), mutation.unwrap_or(Mutations::NoMutation));
        assert_eq!(subsystem.errors.len(), 0);
    }
}

#[test]
fn begin_hands_the_input_of_the_command_to_the_device_call() {
    let mut subsystem = manager(0);
    assert_eq!(
        subsystem.begin(Command::SetWatchdogPeriod(255)),
        Some(DeviceCall::SetCommsWatchdogPeriod(255))
    );
    assert_eq!(
        subsystem.begin(Command::RawCommand(0, Vec::new())),
        Some(DeviceCall::RawCommand(0, Vec::new()))
    );
    let call = subsystem.begin(Command::RawCommand(9, vec![0xde, 0xad])).unwrap();
    assert_eq!(call.op(), DeviceOp::RawCommand);
    assert_eq!(call, DeviceCall::RawCommand(9, vec![0xde, 0xad]));
}

#[test]
fn get_last_error_maps_the_code() {
    let mut subsystem = manager(0);
    assert_eq!(subsystem.get_last_error(Ok(ErrorCode::NoError)), Ok(Error::NoError));
    assert_eq!(subsystem.get_last_error(Ok(ErrorCode::UnknownCommand)), Ok(Error::UnknownCommand));
    assert_eq!(subsystem.get_last_error(Ok(ErrorCode::ResetOccurred)), Ok(Error::ResetOccurred));
    assert_eq!(subsystem.get_last_error(Ok(ErrorCode::CommandError)), Ok(Error::CommandError));
    assert_eq!(subsystem.get_last_error(Ok(ErrorCode::UnknownError)), Ok(Error::UnknownError));
    assert_eq!(subsystem.errors.len(), 0);
}

#[test]
fn get_last_error_logs_and_reports_a_transport_failure() {
    let mut subsystem = manager(0);
    let result = subsystem.get_last_error(Err(String::from("nack")));
    assert_eq!(result, Err(String::from("get_last_error: nack")));
    assert_eq!(subsystem.get_errors(), vec![String::from("get_last_error: nack")]);
}

#[test]
fn get_radiation_count_hands_the_reading_on_and_bypasses_the_windows() {
    let mut subsystem = manager(0);
    assert_eq!(subsystem.get_radiation_count(Ok((7, 8, 9))), Ok((7, 8, 9)));
    assert_eq!(subsystem.get_radiation_count(Ok((0, 65535, 1))), Ok((0, 65535, 1)));
    assert_eq!(subsystem.housekeeping.current.sums, RCHk::default());
    assert_eq!(subsystem.errors.len(), 0);
    assert_eq!(
        subsystem.get_radiation_count(Err(String::from("crc"))),
        Err(String::from("get_radiation_count: crc"))
    );
    assert_eq!(subsystem.housekeeping.current.sums, RCHk::default());
    assert_eq!(subsystem.get_errors(), vec![String::from("get_radiation_count: crc")]);
}

#[test]
fn every_mutation_handler_reports_and_logs_under_its_own_name() {
    let mut subsystem = manager(0);
    assert_eq!(subsystem.reset_watchdog(Err(String::from("a"))).errors, "reset_comms_watchdog: a");
    assert_eq!(
        subsystem.set_comms_watchdog_period(Err(String::from("b"))).errors,
        "set_comms_watchdog_period: b"
    );
    assert_eq!(subsystem.raw_command(Err(String::from("c"))).errors, "raw_command: c");
    assert_eq!(subsystem.rpi_power(Err(String::from("d"))).errors, "rpi_power: d");
    let pinged = subsystem.test_ping(Err(String::from("e")));
    assert!(!pinged.success);
    assert_eq!(pinged.errors, "test_ping: e");
    assert_eq!(
        subsystem.get_errors(),
        vec![
            String::from("reset_comms_watchdog: a"),
            String::from("set_comms_watchdog_period: b"),
            String::from("raw_command: c"),
            String::from("rpi_power: d"),
            String::from("test_ping: e"),
        ]
    );
    assert!(subsystem.reset_watchdog(Ok(())).success);
    assert!(subsystem.set_comms_watchdog_period(Ok(())).success);
    assert!(subsystem.raw_command(Ok(())).success);
    assert!(subsystem.rpi_power(Ok(())).success);
    assert!(subsystem.test_ping(Ok(())).success);
    assert!(subsystem.get_errors().is_empty());
}

#[test]
fn run_hands_a_value_on_and_describes_a_failure() {
    let mut subsystem = manager(0);
    assert_eq!(subsystem.run(DeviceOp::RawCommand, Ok(vec![1u8, 2, 3])), Ok(vec![1u8, 2, 3]));
    assert_eq!(
        subsystem.run::<u8>(DeviceOp::GetHousekeeping, Err(String::from("late"))),
        Err(String::from("get_housekeeping: late"))
    );
    assert_eq!(subsystem.get_errors(), vec![String::from("get_housekeeping: late")]);
}

#[test]
fn housekeeping_with_a_failing_device_is_all_zero_and_not_an_error() {
    let mut subsystem = manager(0);
    subsystem.poller_tick(5, Ok(Counts::from_triple((2, 3, 1))));
    let record = subsystem.get_housekeeping(bus_down());
    assert_eq!(
        record,
        RCHk { rc1_reading: 0, rc2_reading: 0, rc3_reading: 0, rc4_reading: 0, rc5_reading: 0 }
    );
    assert_eq!(subsystem.errors.len(), 0);
    assert_eq!(subsystem.housekeeping.current.sums.rc1_reading, 2);
}

#[test]
fn housekeeping_after_six_polls_of_one_window() {
    let mut subsystem = manager(0);
    for tick in [0u64, 5, 10, 15, 20, 25] {
        assert!(!subsystem.poller_tick(tick, Ok(Counts::from_triple((2, 3, 1)))));
    }
    let record = subsystem.get_housekeeping(Ok(()));
    assert_eq!(
        record,
        RCHk { rc1_reading: 12, rc2_reading: 18, rc3_reading: 6, rc4_reading: 0, rc5_reading: 0 }
    );
    assert_eq!(subsystem.housekeeping.previous, None);
}

#[test]
fn housekeeping_splits_between_previous_and_current_at_the_boundary() {
    let mut subsystem = manager(0);
    for tick in [5u64, 10, 15, 20, 25] {
        assert!(!subsystem.poller_tick(tick, Ok(Counts::from_triple((2, 3, 1)))));
    }
    assert!(subsystem.poller_tick(30, Ok(Counts::from_triple((2, 3, 1)))));
    let closed = subsystem.housekeeping.previous.unwrap();
    assert_eq!(closed.start, 0);
    assert_eq!(
        closed.sums,
        RCHk { rc1_reading: 10, rc2_reading: 15, rc3_reading: 5, rc4_reading: 0, rc5_reading: 0 }
    );
    assert_eq!(subsystem.housekeeping.current.start, 30);
    assert_eq!(
        subsystem.get_housekeeping(Ok(())),
        RCHk { rc1_reading: 2, rc2_reading: 3, rc3_reading: 1, rc4_reading: 0, rc5_reading: 0 }
    );
}

#[test]
fn housekeeping_does_not_wait_and_does_not_change_the_windows() {
    let mut subsystem = manager(0);
    subsystem.poller_tick(1, Ok(Counts { rc1: 1, rc2: 2, rc3: 3, rc4: 4, rc5: 5 }));
    let before = subsystem.housekeeping;
    let record = subsystem.get_housekeeping(Ok(()));
    assert_eq!(
        record,
        RCHk { rc1_reading: 1, rc2_reading: 2, rc3_reading: 3, rc4_reading: 4, rc5_reading: 5 }
    );
    assert_eq!(subsystem.housekeeping, before);
}

#[test]
fn failed_poll_is_logged_and_the_next_poll_goes_on() {
    let mut subsystem = manager(0);
    assert!(!subsystem.poller_tick(5, Err(String::from("nack"))));
    assert_eq!(subsystem.housekeeping.current.sums, RCHk::default());
    assert!(!subsystem.poller_tick(10, Ok(Counts::from_triple((4, 0, 0)))));
    assert_eq!(subsystem.housekeeping.current.sums.rc1_reading, 4);
    assert_eq!(subsystem.get_errors(), vec![String::from("get_radiation_count: nack")]);
}

#[test]
fn failed_poll_at_a_boundary_still_closes_the_window() {
    let mut subsystem = manager(0);
    subsystem.poller_tick(5, Ok(Counts::from_triple((9, 9, 9))));
    assert!(subsystem.poller_tick(30, Err(String::from("nack"))));
    assert_eq!(subsystem.housekeeping.current.start, 30);
    assert_eq!(subsystem.housekeeping.current.sums, RCHk::default());
    assert_eq!(subsystem.housekeeping.previous.unwrap().sums.rc1_reading, 9);
}

#[test]
fn missed_watchdog_kick_leaves_no_trace() {
    let mut subsystem = manager(0);
    subsystem.begin(Command::ManualReset);
    subsystem.watchdog_tick(bus_down());
    subsystem.watchdog_tick(Ok(()));
    assert_eq!(subsystem.errors.len(), 0);
    assert_eq!(subsystem.get_last_mutation(), Mutations::ManualReset);
    assert_eq!(subsystem.housekeeping.current.start, 0);
}

#[test]
fn handlers_leave_handle_and_tasks_alone() {
    let mut subsystem = manager(0);
    assert!(subsystem.handle.acquire(Accessor::Command));
    subsystem.begin(Command::ManualReset);
    subsystem.manual_reset(bus_down());
    subsystem.poller_tick(31, Ok(Counts::from_triple((1, 1, 1))));
    subsystem.get_errors();
    assert_eq!(subsystem.handle.holder(), Some(Accessor::Command));
    assert_eq!(subsystem.watchdog, Task::start(TaskKind::Watchdog));
    assert_eq!(subsystem.poller, Task::start(TaskKind::Poller));
}
