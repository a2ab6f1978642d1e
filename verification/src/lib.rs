//! Verified core of a network-attached remote control: a device polls a
//! chat API for commands from a single authorized operator and drives a
//! digital output line through timed pulse sequences.
//!
//! The crate holds the logic worth proving: HTTP response classification,
//! the JSON request/response envelope handling, the long-poll offset
//! cursor, and the command-to-pulse dispatcher. The network, WiFi and pin
//! hardware live outside, behind narrow interfaces.

pub mod api;
pub mod config;
pub mod dispatch;
pub mod poller;
pub mod transport;
pub mod types;
