//! State manager for a radiation-counter payload on a shared bus.
//!
//! The service owns one radiation counter, reachable over I2C. This library
//! is the part of the service that decides: what is remembered of the
//! counter, what a command answers, when a housekeeping window closes, when
//! a background task sleeps and when it talks to the counter, and who may
//! have the bus. It performs no input or output. The program around it runs
//! the device operations that the library names and hands their outcomes
//! back as plain values.
//!
//! - [`subsystem`]: the manager and its command surface
//! - [`device`]: device operations, failure descriptions, the device handle
//! - [`error_log`]: the log of failed device operations
//! - [`window`]: the housekeeping aggregator and its thirty-second windows
//! - [`tasks`]: the watchdog task and the poller task as step functions
//! - [`models`]: the records that commands answer with
//! - [`config`]: the device address as the configuration writes it
//! - [`model`]: a stand-in subsystem with fixed answers

pub mod config;
pub mod device;
pub mod error_log;
pub mod model;
pub mod models;
pub mod subsystem;
pub mod tasks;
pub mod window;
