//! Telepath: remote audio recording over the network.
//!
//! The verified core of the project: the UDP audio packet format, the
//! length-prefixed control framing, the control protocol's messages, and the
//! decisions of the host, receiver and plugin sessions and user interfaces.
pub mod common;
pub mod host;
pub mod plugin;
pub mod receiver;
