//! Items shared by the host, the receiver and the plugin.
pub mod bytes;
pub mod error;
pub mod framing;
pub mod packet;
pub mod text;
pub mod protocol;
pub mod session;
pub mod jitter;
