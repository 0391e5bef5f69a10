//! Monitoring and safety logic for an uninterruptible power supply that
//! reports its state through indexed strings of a human-interface device.
//!
//! The crate holds the parts that decide: decoding of the status and
//! reference frames, classification of each measured channel, the
//! auto-shutdown watchdog, the monitoring state machine and the command
//! dispatcher. Device access and host power-off are left to the caller.
pub mod protocol;
pub mod classify;
pub mod watchdog;
pub mod monitor;
pub mod commands;
