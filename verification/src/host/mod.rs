//! The host: captures audio and streams it to the receiver.
pub mod app;
pub mod net;
