//! The receiver: plays the host's stream into a device that the DAW records.
pub mod app;
pub mod net;
