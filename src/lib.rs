//! Liveness watchdog for a browser driven by a remote automation agent.
//!
//! The agent pings an HTTP endpoint while it works; when the pings stop for
//! longer than a grace period, the browser is terminated and relaunched.
//! This crate holds the decisions: the watchdog's state machine, the laws it
//! obeys, the reply to a ping, and the report of a launch attempt. The
//! program around it performs the I/O that the decisions call for.

pub mod heartbeat;
pub mod launch;
pub mod laws;
pub mod watchdog;
