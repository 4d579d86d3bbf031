//! A stand-in subsystem with fixed answers, for bringing up a front-end
//! without a counter on the bus.

use vstd::prelude::*;
use vstd::string::*;

verus! {

/// Number of radiation counters that the stand-in pretends to have.
pub const NUM_COUNTERS: i32 = 4;

/// Model for power mutations
#[derive(Clone, Copy, Debug, PartialEq, Eq, Structural)]
pub struct SetPower {
    pub power: bool,
}

/// Model for uptime mutations
#[derive(Clone, Copy, Debug, PartialEq, Eq, Structural)]
pub struct ResetUptime {
    pub uptime: i32,
}

/// Why a request to the stand-in was turned down.
#[derive(Clone, Copy, Debug, PartialEq, Eq, Structural)]
pub enum ModelErrorKind {
    /// The stand-in does not allow it
    PermissionDenied,
    /// The value could not be had in time
    TimedOut,
    /// There is no such thing to ask about
    NotFound,
}

/// A request that the stand-in turned down: why, and in which words.
#[derive(Debug)]
pub struct ModelError {
    pub kind: ModelErrorKind,
    pub message: String,
}

/// What the stand-in answers when asked for the count of `counter_id`: an
/// error for a counter that it does not have, the average for a negative
/// id, and the same count for each counter that it has.
pub open spec fn count_of(counter_id: i32) -> Option<i32> {
    if counter_id >= NUM_COUNTERS {
        None
    } else if counter_id < 0 {
        Some(15)
    } else {
        Some(2)
    }
}

/// Model for service's subsystem
#[derive(Clone, Copy, Debug)]
pub struct Subsystem;

impl Subsystem {
    /// Creates new Subsystem structure instance
    pub fn new() -> (subsystem: Subsystem) {
        Subsystem {  }
    }

    /// Power status getter: the stand-in is always on.
    pub fn power(&self) -> (result: Result<bool, ModelError>)
        ensures
            result matches Ok(on) && on,
    {
        Ok(true)
    }

    /// Power state setter: the stand-in can be switched on and refuses to
    /// be switched off.
    pub fn set_power(&self, power: bool) -> (result: Result<SetPower, ModelError>)
        ensures
            power ==> (result matches Ok(set) && set.power),
            !power ==> (result matches Err(error) && error.kind == ModelErrorKind::PermissionDenied
                && error.message@ == "I'm sorry Dave, I afraid I can't do that"@),
    {
        if power {
            Ok(SetPower { power: true })
        } else {
            Err(
                ModelError {
                    kind: ModelErrorKind::PermissionDenied,
                    message: String::from_str("I'm sorry Dave, I afraid I can't do that"),
                },
            )
        }
    }

    /// Uptime getter
    pub fn uptime(&self) -> (result: Result<i32, ModelError>)
        ensures
            result matches Ok(seconds) && seconds == 111_001,
    {
        Ok(111_001)
    }

    /// Uptime reset function
    pub fn reset_uptime(&self) -> (result: Result<ResetUptime, ModelError>)
        ensures
            result matches Ok(reset) && reset.uptime == 0,
    {
        Ok(ResetUptime { uptime: 0 })
    }

    /// Temperature getter: the stand-in has no thermometer, so this always
    /// fails, to show a front-end an error.
    pub fn temperature(&self) -> (result: Result<i32, ModelError>)
        ensures
            result matches Err(error) && error.kind == ModelErrorKind::TimedOut && error.message@
                == "Failed to retrieve temperature"@,
    {
        Err(
            ModelError {
                kind: ModelErrorKind::TimedOut,
                message: String::from_str("Failed to retrieve temperature"),
            },
        )
    }

    /// Radiation count getter: the count of counter `counter_id`, or the
    /// average of all counters if `counter_id` is negative.
    pub fn radiation_count(&self, counter_id: i32) -> (result: Result<i32, ModelError>)
        ensures
            match count_of(counter_id) {
                Some(count) => result matches Ok(got) && got == count,
                None => result matches Err(error) && error.kind == ModelErrorKind::NotFound
                    && error.message@ == "There are only 4 radiation counters"@,
            },
            result is Err <==> counter_id >= NUM_COUNTERS,
    {
        if counter_id >= NUM_COUNTERS {
            Err(
                ModelError {
                    kind: ModelErrorKind::NotFound,
                    message: String::from_str("There are only 4 radiation counters"),
                },
            )
        } else if counter_id < 0 {
            Ok(15)
        } else {
            Ok(2)
        }
    }

    /// Average radiation count getter
    pub fn avg_radiation_count(&self) -> (result: Result<i32, ModelError>)
        ensures
            result matches Ok(average) && average == 15,
    {
        self.radiation_count(-1)
    }
}

} // verus!
